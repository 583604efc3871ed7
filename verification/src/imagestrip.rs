//! Removing metadata from PNG and JPEG uploads.
//!
//! A PNG keeps its signature and its critical chunks (those whose type starts
//! with an upper case letter) and loses the ancillary ones, up to and including
//! `IEND`. A JPEG keeps its segments except the APPn (`E0`..`EF`) and comment
//! (`FE`) segments; fill bytes before a marker are dropped, and the entropy-coded
//! data after start-of-scan is copied unchanged. A truncated chunk or segment
//! makes the rewrite fail.
use vstd::prelude::*;

verus! {

pub open spec fn png_signature() -> Seq<u8> {
    seq![0x89u8, 0x50u8, 0x4Eu8, 0x47u8, 0x0Du8, 0x0Au8, 0x1Au8, 0x0Au8]
}

/// The big-endian value of the four bytes of `b` at `i`.
pub open spec fn be_u32_at(b: Seq<u8>, i: int) -> nat {
    (b[i] as nat) * 16777216 + (b[i + 1] as nat) * 65536 + (b[i + 2] as nat) * 256 + (
    b[i + 3] as nat)
}

/// A chunk type whose first letter is upper case is critical.
pub open spec fn png_critical(type_first: u8) -> bool {
    0x41 <= type_first && type_first <= 0x5A
}

/// Whether the chunk header at the start of `h` has type `IEND`.
pub open spec fn png_is_iend(h: Seq<u8>) -> bool {
    h[4] == 0x49 && h[5] == 0x45 && h[6] == 0x4E && h[7] == 0x44
}

pub open spec fn prefix_with(w: Seq<u8>, r: Option<Seq<u8>>) -> Option<Seq<u8>> {
    match r {
        Some(t) => Some(w + t),
        None => None,
    }
}

/// The kept bytes of the chunks in `rest` (the file after its signature), or
/// `None` when a chunk is cut short. Fewer than eight trailing bytes end the
/// file and are dropped.
pub open spec fn png_chunks(rest: Seq<u8>) -> Option<Seq<u8>>
    decreases rest.len(),
{
    if rest.len() < 8 {
        Some(Seq::empty())
    } else {
        let n = be_u32_at(rest, 0) + 4;
        if rest.len() < 8 + n {
            None
        } else {
            let kept = if png_critical(rest[4]) {
                rest.take(8 + n as int)
            } else {
                Seq::empty()
            };
            if png_is_iend(rest) {
                Some(kept)
            } else {
                prefix_with(kept, png_chunks(rest.skip(8 + n as int)))
            }
        }
    }
}

/// The PNG `data` without its ancillary chunks; `None` when `data` is not a PNG
/// or a chunk is cut short.
pub open spec fn spec_strip_png(data: Seq<u8>) -> Option<Seq<u8>> {
    if data.len() < 8 || data.take(8) != png_signature() {
        None
    } else {
        prefix_with(png_signature(), png_chunks(data.skip(8)))
    }
}

pub open spec fn vec_opt_view(r: Option<Vec<u8>>) -> Option<Seq<u8>> {
    match r {
        Some(v) => Some(v@),
        None => None,
    }
}

fn copy_range(out: &mut Vec<u8>, data: &[u8], lo: usize, hi: usize)
    requires
        lo <= hi <= data@.len(),
    ensures
        final(out)@ == old(out)@ + data@.subrange(lo as int, hi as int),
{
    let mut i = lo;
    let ghost start = out@;
    while i < hi
        invariant
            lo <= i <= hi <= data@.len(),
            out@ == start + data@.subrange(lo as int, i as int),
        decreases hi - i,
    {
        out.push(data[i]);
        assert(data@.subrange(lo as int, i + 1) == data@.subrange(lo as int, i as int).push(
            data@[i as int],
        ));
        i += 1;
    }
}

/// What a stream rewriter does with a PNG chunk, read from its eight-byte
/// header: copy it or skip it (`keep`), how many bytes follow the header
/// (`body_len`: payload and CRC), and whether it ends the image (`last`).
#[derive(Clone, Copy, Debug, PartialEq, Eq)]
pub struct PngChunkStep {
    pub keep: bool,
    pub body_len: u64,
    pub last: bool,
}

pub fn png_chunk_step(header: [u8; 8]) -> (r: PngChunkStep)
    ensures
        r.keep == png_critical(header@[4]),
        r.body_len == be_u32_at(header@, 0) + 4,
        r.last == png_is_iend(header@),
{
    let body_len: u64 = (header[0] as u64) * 16777216 + (header[1] as u64) * 65536 + (
    header[2] as u64) * 256 + (header[3] as u64) + 4;
    PngChunkStep {
        keep: 0x41 <= header[4] && header[4] <= 0x5A,
        body_len,
        last: header[4] == 0x49 && header[5] == 0x45 && header[6] == 0x4E && header[7] == 0x44,
    }
}

/// Whether eight bytes are the PNG signature.
pub fn is_png_signature(first: [u8; 8]) -> (b: bool)
    ensures
        b == (first@ == png_signature()),
{
    let b = first[0] == 0x89 && first[1] == 0x50 && first[2] == 0x4E && first[3] == 0x47
        && first[4] == 0x0D && first[5] == 0x0A && first[6] == 0x1A && first[7] == 0x0A;
    if b {
        assert(first@ =~= png_signature());
    } else {
        assert(first@ != png_signature()) by {
            if first@ == png_signature() {
                assert(first@[0] == png_signature()[0]);
            }
        }
    }
    b
}

fn header_at(data: &[u8], pos: usize) -> (h: [u8; 8])
    requires
        pos + 8 <= data@.len(),
    ensures
        h@ == data@.subrange(pos as int, pos + 8),
{
    let h = [
        data[pos],
        data[pos + 1],
        data[pos + 2],
        data[pos + 3],
        data[pos + 4],
        data[pos + 5],
        data[pos + 6],
        data[pos + 7],
    ];
    assert(h@ =~= data@.subrange(pos as int, pos + 8));
    h
}

/// Removes the ancillary chunks of a PNG.
pub fn strip_png_metadata(data: &[u8]) -> (r: Option<Vec<u8>>)
    ensures
        vec_opt_view(r) == spec_strip_png(data@),
{
    if data.len() < 8 {
        return None;
    }
    if !is_png_signature(header_at(data, 0)) {
        assert(data@.take(8) == data@.subrange(0, 8));
        return None;
    }
    assert(data@.take(8) == data@.subrange(0, 8));
    let mut out: Vec<u8> = Vec::new();
    copy_range(&mut out, data, 0, 8);
    let mut pos: usize = 8;
    let ghost target = spec_strip_png(data@);
    assert(out@ == png_signature());
    loop
        invariant
            8 <= pos <= data@.len(),
            target == spec_strip_png(data@),
            target == prefix_with(out@, png_chunks(data@.skip(pos as int))),
        decreases data@.len() - pos,
    {
        let ghost rest = data@.skip(pos as int);
        if data.len() - pos < 8 {
            assert(png_chunks(rest) == Some(Seq::<u8>::empty()));
            assert(out@ + Seq::<u8>::empty() == out@);
            return Some(out);
        }
        let header = header_at(data, pos);
        assert(header@ == rest.take(8));
        assert(be_u32_at(header@, 0) == be_u32_at(rest, 0));
        let step = png_chunk_step(header);
        let n = step.body_len;
        if ((data.len() - pos - 8) as u64) < n {
            return None;
        }
        let end: usize = pos + 8 + (n as usize);
        let critical = step.keep;
        let iend = step.last;
        let ghost before = out@;
        assert(rest.take(8 + n as int) == data@.subrange(pos as int, end as int));
        assert(rest.skip(8 + n as int) == data@.skip(end as int));
        if critical {
            copy_range(&mut out, data, pos, end);
        }
        proof {
            let kept = if png_critical(rest[4]) {
                rest.take(8 + n as int)
            } else {
                Seq::<u8>::empty()
            };
            assert(out@ == before + kept);
            if !iend {
                match png_chunks(data@.skip(end as int)) {
                    Some(t) => {
                        assert(before + (kept + t) == (before + kept) + t);
                    },
                    None => {},
                }
            }
        }
        if iend {
            return Some(out);
        }
        pos = end;
    }
}

proof fn lemma_png_chunks_fixed(x: Seq<u8>)
    ensures
        png_chunks(x) matches Some(y) ==> png_chunks(y) == Some(y),
    decreases x.len(),
{
    if x.len() >= 8 {
        let n = be_u32_at(x, 0) + 4;
        if x.len() >= 8 + n {
            let head = x.take(8 + n as int);
            assert(head[0] == x[0] && head[1] == x[1] && head[2] == x[2] && head[3] == x[3]);
            assert(be_u32_at(head, 0) + 4 == n);
            assert(head.take(8 + n as int) == head);
            if png_is_iend(x) {
            } else {
                let rest = x.skip(8 + n as int);
                lemma_png_chunks_fixed(rest);
                if let Some(t) = png_chunks(rest) {
                    if png_critical(x[4]) {
                        let y = head + t;
                        assert(y[0] == x[0] && y[1] == x[1] && y[2] == x[2] && y[3] == x[3]);
                        assert(y[4] == x[4] && y[5] == x[5] && y[6] == x[6] && y[7] == x[7]);
                        assert(be_u32_at(y, 0) + 4 == n);
                        assert(y.take(8 + n as int) == head);
                        assert(y.skip(8 + n as int) == t);
                        assert(png_is_iend(y) == png_is_iend(x));
                    } else {
                        assert(Seq::<u8>::empty() + t == t);
                    }
                }
            }
        }
    }
}

/// Stripping a PNG twice gives what stripping it once gives: no ancillary
/// chunk survives the first pass.
pub proof fn law_strip_png_idempotent(data: Seq<u8>)
    ensures
        spec_strip_png(data) matches Some(y) ==> spec_strip_png(y) == Some(y),
{
    if let Some(y) = spec_strip_png(data) {
        let rest = data.skip(8);
        lemma_png_chunks_fixed(rest);
        let t = png_chunks(rest).unwrap();
        assert(y == png_signature() + t);
        assert(y.take(8) == png_signature());
        assert(y.skip(8) == t);
    }
}

/// Markers that stand alone, without a length: TEM, RST0..RST7 and EOI.
pub open spec fn jpeg_standalone(m: u8) -> bool {
    m == 0xD9 || m == 0x01 || (0xD0 <= m && m <= 0xD7)
}

/// APPn and comment segments hold metadata.
pub open spec fn jpeg_metadata(m: u8) -> bool {
    (0xE0 <= m && m <= 0xEF) || m == 0xFE
}

/// The kept bytes of the JPEG stream `rest` (after start-of-image), or `None`
/// when a marker or segment is cut short or a length is invalid.
pub open spec fn jpeg_segments(rest: Seq<u8>) -> Option<Seq<u8>>
    decreases rest.len(), 1int,
{
    if rest.len() == 0 {
        Some(Seq::empty())
    } else if rest[0] != 0xFF {
        Some(rest)
    } else {
        jpeg_marker(rest.drop_first())
    }
}

/// The kept bytes from a marker byte on; `r` follows an `FF` byte.
pub open spec fn jpeg_marker(r: Seq<u8>) -> Option<Seq<u8>>
    decreases r.len(), 0int,
{
    if r.len() == 0 {
        None
    } else if r[0] == 0xFF {
        jpeg_marker(r.drop_first())
    } else {
        let m = r[0];
        let after = r.drop_first();
        let w = seq![0xFFu8, m];
        if jpeg_standalone(m) {
            if m == 0xD9 {
                Some(w)
            } else {
                prefix_with(w, jpeg_segments(after))
            }
        } else if after.len() < 2 {
            None
        } else {
            let len = (after[0] as nat) * 256 + (after[1] as nat);
            if len < 2 {
                None
            } else if after.len() < len {
                None
            } else {
                let next = after.skip(len as int);
                if jpeg_metadata(m) {
                    jpeg_segments(next)
                } else if m == 0xDA {
                    Some(w + after.take(len as int) + next)
                } else {
                    prefix_with(w + after.take(len as int), jpeg_segments(next))
                }
            }
        }
    }
}

/// The JPEG `data` without its metadata segments; `None` when `data` does not
/// start with start-of-image or is cut short.
pub open spec fn spec_strip_jpeg(data: Seq<u8>) -> Option<Seq<u8>> {
    if data.len() < 2 || data[0] != 0xFF || data[1] != 0xD8 {
        None
    } else {
        prefix_with(seq![0xFFu8, 0xD8u8], jpeg_segments(data.skip(2)))
    }
}

proof fn lemma_jpeg_segments_fixed(x: Seq<u8>)
    ensures
        jpeg_segments(x) matches Some(y) ==> jpeg_segments(y) == Some(y),
    decreases x.len(), 1int,
{
    if x.len() > 0 && x[0] == 0xFF {
        lemma_jpeg_marker_fixed(x.drop_first());
    }
}

proof fn lemma_jpeg_marker_fixed(r: Seq<u8>)
    ensures
        jpeg_marker(r) matches Some(y) ==> jpeg_segments(y) == Some(y),
    decreases r.len(), 0int,
{
    if r.len() == 0 {
    } else if r[0] == 0xFF {
        lemma_jpeg_marker_fixed(r.drop_first());
    } else {
        let m = r[0];
        let after = r.drop_first();
        let w = seq![0xFFu8, m];
        if jpeg_standalone(m) {
            if m == 0xD9 {
                assert(w.drop_first() == seq![m]);
                assert(seq![m].drop_first() == Seq::<u8>::empty());
            } else {
                lemma_jpeg_segments_fixed(after);
                if let Some(t) = jpeg_segments(after) {
                    let y = w + t;
                    assert(y.drop_first() == seq![m] + t);
                    assert((seq![m] + t).drop_first() == t);
                }
            }
        } else if after.len() >= 2 {
            let len = (after[0] as nat) * 256 + (after[1] as nat);
            if len >= 2 && after.len() >= len {
                let next = after.skip(len as int);
                let seg = after.take(len as int);
                if jpeg_metadata(m) {
                    lemma_jpeg_segments_fixed(next);
                } else if m == 0xDA {
                    let y = w + seg + next;
                    let r2 = seq![m] + seg + next;
                    assert(y.drop_first() == r2);
                    assert(r2.drop_first() == seg + next);
                    assert((seg + next).take(len as int) == seg);
                    assert((seg + next).skip(len as int) == next);
                } else {
                    lemma_jpeg_segments_fixed(next);
                    if let Some(t) = jpeg_segments(next) {
                        let y = w + seg + t;
                        let r2 = seq![m] + seg + t;
                        assert(y.drop_first() == r2);
                        assert(r2.drop_first() == seg + t);
                        assert((seg + t).take(len as int) == seg);
                        assert((seg + t).skip(len as int) == t);
                        assert(w + seg + t == (w + seg) + t);
                    }
                }
            }
        }
    }
}

/// Stripping a JPEG twice gives what stripping it once gives: no APPn or
/// comment segment survives the first pass.
pub proof fn law_strip_jpeg_idempotent(data: Seq<u8>)
    ensures
        spec_strip_jpeg(data) matches Some(y) ==> spec_strip_jpeg(y) == Some(y),
{
    if let Some(y) = spec_strip_jpeg(data) {
        let rest = data.skip(2);
        lemma_jpeg_segments_fixed(rest);
        let t = jpeg_segments(rest).unwrap();
        assert(y == seq![0xFFu8, 0xD8u8] + t);
        assert(y.skip(2) == t);
    }
}

proof fn lemma_png_chunks_shorter(x: Seq<u8>)
    ensures
        png_chunks(x) matches Some(y) ==> y.len() <= x.len(),
    decreases x.len(),
{
    if x.len() >= 8 {
        let n = be_u32_at(x, 0) + 4;
        if x.len() >= 8 + n && !png_is_iend(x) {
            lemma_png_chunks_shorter(x.skip(8 + n as int));
        }
    }
}

proof fn lemma_jpeg_segments_shorter(x: Seq<u8>)
    ensures
        jpeg_segments(x) matches Some(y) ==> y.len() <= x.len(),
    decreases x.len(), 1int,
{
    if x.len() > 0 && x[0] == 0xFF {
        lemma_jpeg_marker_shorter(x.drop_first());
    }
}

proof fn lemma_jpeg_marker_shorter(r: Seq<u8>)
    ensures
        jpeg_marker(r) matches Some(y) ==> y.len() <= r.len() + 1,
    decreases r.len(), 0int,
{
    if r.len() == 0 {
    } else if r[0] == 0xFF {
        lemma_jpeg_marker_shorter(r.drop_first());
    } else {
        let m = r[0];
        let after = r.drop_first();
        if jpeg_standalone(m) {
            if m != 0xD9 {
                lemma_jpeg_segments_shorter(after);
            }
        } else if after.len() >= 2 {
            let len = (after[0] as nat) * 256 + (after[1] as nat);
            if len >= 2 && after.len() >= len {
                lemma_jpeg_segments_shorter(after.skip(len as int));
            }
        }
    }
}

/// Stripping never makes an image larger: what is kept of a PNG or a JPEG is
/// at most as long as the image.
pub proof fn law_stripping_never_grows(data: Seq<u8>)
    ensures
        spec_strip_png(data) matches Some(y) ==> y.len() <= data.len(),
        spec_strip_jpeg(data) matches Some(y) ==> y.len() <= data.len(),
{
    if data.len() >= 8 {
        lemma_png_chunks_shorter(data.skip(8));
    }
    if data.len() >= 2 {
        lemma_jpeg_segments_shorter(data.skip(2));
    }
}

/// What a stream rewriter does at a JPEG marker: a standalone marker is
/// copied and, for end-of-image, ends the image; a segment is copied or, for
/// metadata, skipped, and start-of-scan passes the rest of the stream through.
#[derive(Clone, Copy, Debug, PartialEq, Eq)]
pub enum JpegMarkerStep {
    Standalone { end: bool },
    Segment { keep: bool, scan: bool },
}

pub fn jpeg_marker_step(marker: u8) -> (r: JpegMarkerStep)
    ensures
        jpeg_standalone(marker) ==> r == (JpegMarkerStep::Standalone { end: marker == 0xD9 }),
        !jpeg_standalone(marker) ==> r == (JpegMarkerStep::Segment {
            keep: !jpeg_metadata(marker),
            scan: marker == 0xDA,
        }),
{
    if marker == 0xD9 || marker == 0x01 || (0xD0 <= marker && marker <= 0xD7) {
        JpegMarkerStep::Standalone { end: marker == 0xD9 }
    } else {
        JpegMarkerStep::Segment {
            keep: !((0xE0 <= marker && marker <= 0xEF) || marker == 0xFE),
            scan: marker == 0xDA,
        }
    }
}

/// The length of a JPEG segment (its two length bytes included) from those
/// bytes; `None` when it is below two, which no segment can be.
pub fn jpeg_segment_length(high: u8, low: u8) -> (r: Option<usize>)
    ensures
        (high as nat) * 256 + (low as nat) < 2 ==> r is None,
        (high as nat) * 256 + (low as nat) >= 2 ==> r == Some(((high as nat) * 256 + (low as nat)) as usize),
{
    let len: usize = (high as usize) * 256 + (low as usize);
    if len < 2 {
        None
    } else {
        Some(len)
    }
}

/// Removes the APPn and comment segments of a JPEG.
#[verifier::rlimit(50)]
pub fn strip_jpeg_metadata(data: &[u8]) -> (r: Option<Vec<u8>>)
    ensures
        vec_opt_view(r) == spec_strip_jpeg(data@),
{
    if data.len() < 2 || data[0] != 0xFF || data[1] != 0xD8 {
        return None;
    }
    let mut out: Vec<u8> = Vec::new();
    out.push(0xFF);
    out.push(0xD8);
    let ghost target = spec_strip_jpeg(data@);
    assert(out@ == seq![0xFFu8, 0xD8u8]);
    let mut pos: usize = 2;
    loop
        invariant
            2 <= pos <= data@.len(),
            target == spec_strip_jpeg(data@),
            target == prefix_with(out@, jpeg_segments(data@.skip(pos as int))),
        decreases data@.len() - pos,
    {
        let ghost rest = data@.skip(pos as int);
        if pos == data.len() {
            assert(out@ + Seq::<u8>::empty() == out@);
            return Some(out);
        }
        if data[pos] != 0xFF {
            copy_range(&mut out, data, pos, data.len());
            assert(rest == data@.subrange(pos as int, data@.len() as int));
            return Some(out);
        }
        // Skip the fill bytes before the marker.
        let mut k: usize = pos + 1;
        assert(rest.drop_first() == data@.skip(k as int));
        assert(jpeg_segments(rest) == jpeg_marker(data@.skip(k as int)));
        while k < data.len() && data[k] == 0xFF
            invariant
                pos < k <= data@.len(),
                jpeg_segments(rest) == jpeg_marker(data@.skip(k as int)),
            decreases data@.len() - k,
        {
            assert(data@.skip(k as int).drop_first() == data@.skip(k + 1));
            k += 1;
        }
        if k == data.len() {
            return None;
        }
        let m = data[k];
        let ghost r = data@.skip(k as int);
        let ghost after = r.drop_first();
        assert(after == data@.skip(k + 1));
        let ghost before = out@;
        let step = jpeg_marker_step(m);
        if let JpegMarkerStep::Standalone { end } = step {
            out.push(0xFF);
            out.push(m);
            assert(out@ == before + seq![0xFFu8, m]);
            if end {
                return Some(out);
            }
            proof {
                match jpeg_segments(after) {
                    Some(t) => {
                        assert(before + (seq![0xFFu8, m] + t) == (before + seq![0xFFu8, m]) + t);
                    },
                    None => {},
                }
            }
            pos = k + 1;
        } else {
            if data.len() - (k + 1) < 2 {
                return None;
            }
            let len: usize = match jpeg_segment_length(data[k + 1], data[k + 2]) {
                Some(l) => l,
                None => return None,
            };
            if data.len() - (k + 1) < len {
                return None;
            }
            let end = k + 1 + len;
            assert(after.skip(len as int) == data@.skip(end as int));
            assert(after.take(len as int) == data@.subrange(k + 1, end as int));
            let (keep, scan) = match step {
                JpegMarkerStep::Segment { keep, scan } => (keep, scan),
                JpegMarkerStep::Standalone { .. } => (true, false),
            };
            if !keep {
                pos = end;
            } else {
                out.push(0xFF);
                out.push(m);
                copy_range(&mut out, data, k + 1, end);
                let ghost w = seq![0xFFu8, m] + after.take(len as int);
                assert(out@ == before + w);
                if scan {
                    copy_range(&mut out, data, end, data.len());
                    assert(data@.subrange(end as int, data@.len() as int) == after.skip(
                        len as int,
                    ));
                    assert(before + (w + after.skip(len as int)) == before + w + after.skip(
                        len as int,
                    ));
                    return Some(out);
                }
                proof {
                    match jpeg_segments(after.skip(len as int)) {
                        Some(t) => {
                            assert(before + (w + t) == (before + w) + t);
                        },
                        None => {},
                    }
                }
                pos = end;
            }
        }
    }
}

} // verus!
