//! Metadata removal on a stream: the image arrives in chunks of any size, and
//! each chunk gives the bytes to write out at once. What a stream writes,
//! when it ends complete, is what removing the metadata from the whole image
//! gives; when it ends cut short, the image is kept as it was.
use vstd::prelude::*;
use crate::imagestrip::{
    be_u32_at, png_chunk_step, jpeg_marker, jpeg_metadata, jpeg_segments, jpeg_standalone, png_chunks,
    png_critical, png_is_iend, png_signature, prefix_with, spec_strip_jpeg, spec_strip_png,
    vec_opt_view,
};

verus! {

pub proof fn lemma_prefix_empty(x: Option<Seq<u8>>)
    ensures
        prefix_with(Seq::empty(), x) == x,
{
    if let Some(t) = x {
        assert(Seq::<u8>::empty() + t =~= t);
    }
}

pub proof fn lemma_prefix_assoc(a: Seq<u8>, b: Seq<u8>, x: Option<Seq<u8>>)
    ensures
        prefix_with(a, prefix_with(b, x)) == prefix_with(a + b, x),
{
    if let Some(t) = x {
        assert(a + (b + t) =~= (a + b) + t);
    }
}

// ---------------------------------------------------------------- JPEG

/// Where a JPEG stream stands.
#[derive(Clone, Copy, Debug, PartialEq, Eq, Structural)]
pub enum JpegState {
    /// Waiting for the first byte of start-of-image.
    Soi0,
    /// Waiting for its second byte.
    Soi1,
    /// Between segments: a marker, or entropy-coded data.
    Prefix,
    /// After an `FF`: fill bytes or a marker.
    Marker,
    /// After the marker `m` of a segment: the first byte of its length.
    Len1 { m: u8 },
    /// After the first length byte `hi`: the second one.
    Len2 { m: u8, hi: u8 },
    /// Copying `remaining` bytes of a kept segment; after start-of-scan
    /// (`scan`) everything that follows is copied.
    Keep { remaining: u64, scan: bool },
    /// Skipping `remaining` bytes of a metadata segment.
    Skip { remaining: u64 },
    /// Copying everything that follows.
    Rest,
    /// End-of-image was passed; what follows is dropped.
    Done,
    /// The image is not a JPEG or is broken; it is kept as it was.
    Cut,
}

/// The states a stream can be in: a pending segment length follows a marker
/// that takes one, and a segment being copied or skipped has bytes left.
pub open spec fn jpeg_wf(s: JpegState) -> bool {
    match s {
        JpegState::Len1 { m } => m != 0xFF && !jpeg_standalone(m),
        JpegState::Len2 { m, hi } => m != 0xFF && !jpeg_standalone(m),
        JpegState::Keep { remaining, scan } => remaining > 0,
        JpegState::Skip { remaining } => remaining > 0,
        _ => true,
    }
}

/// What is still to be written, from state `s`, when `r` is the rest of the
/// image; `None` when the image turns out cut short or not a JPEG.
pub open spec fn jpeg_pending(s: JpegState, r: Seq<u8>) -> Option<Seq<u8>> {
    match s {
        JpegState::Soi0 => spec_strip_jpeg(r),
        JpegState::Soi1 => spec_strip_jpeg(seq![0xFFu8] + r),
        JpegState::Prefix => jpeg_segments(r),
        JpegState::Marker => jpeg_marker(r),
        JpegState::Len1 { m } => jpeg_marker(seq![m] + r),
        JpegState::Len2 { m, hi } => jpeg_marker(seq![m, hi] + r),
        JpegState::Keep { remaining, scan } => if r.len() < remaining {
            None
        } else if scan {
            Some(r)
        } else {
            prefix_with(r.take(remaining as int), jpeg_segments(r.skip(remaining as int)))
        },
        JpegState::Skip { remaining } => if r.len() < remaining {
            None
        } else {
            jpeg_segments(r.skip(remaining as int))
        },
        JpegState::Rest => Some(r),
        JpegState::Done => Some(Seq::empty()),
        JpegState::Cut => None,
    }
}

/// One byte of a JPEG stream: the next state, and the bytes to write.
pub open spec fn jpeg_next(s: JpegState, b: u8) -> (JpegState, Seq<u8>) {
    match s {
        JpegState::Soi0 => if b == 0xFF {
            (JpegState::Soi1, Seq::empty())
        } else {
            (JpegState::Cut, Seq::empty())
        },
        JpegState::Soi1 => if b == 0xD8 {
            (JpegState::Prefix, seq![0xFFu8, 0xD8u8])
        } else {
            (JpegState::Cut, Seq::empty())
        },
        JpegState::Prefix => if b == 0xFF {
            (JpegState::Marker, Seq::empty())
        } else {
            (JpegState::Rest, seq![b])
        },
        JpegState::Marker => if b == 0xFF {
            (JpegState::Marker, Seq::empty())
        } else if jpeg_standalone(b) {
            if b == 0xD9 {
                (JpegState::Done, seq![0xFFu8, b])
            } else {
                (JpegState::Prefix, seq![0xFFu8, b])
            }
        } else {
            (JpegState::Len1 { m: b }, Seq::empty())
        },
        JpegState::Len1 { m } => (JpegState::Len2 { m, hi: b }, Seq::empty()),
        JpegState::Len2 { m, hi } => {
            let len = (hi as nat) * 256 + (b as nat);
            if len < 2 {
                (JpegState::Cut, Seq::empty())
            } else {
                let n = (len - 2) as u64;
                if jpeg_metadata(m) {
                    if n == 0 {
                        (JpegState::Prefix, Seq::empty())
                    } else {
                        (JpegState::Skip { remaining: n }, Seq::empty())
                    }
                } else {
                    let w = seq![0xFFu8, m, hi, b];
                    if n == 0 {
                        (if m == 0xDA {
                            JpegState::Rest
                        } else {
                            JpegState::Prefix
                        }, w)
                    } else {
                        (JpegState::Keep { remaining: n, scan: m == 0xDA }, w)
                    }
                }
            }
        },
        JpegState::Keep { remaining, scan } => (
            if remaining == 1 {
                if scan {
                    JpegState::Rest
                } else {
                    JpegState::Prefix
                }
            } else {
                JpegState::Keep { remaining: (remaining - 1) as u64, scan }
            },
            seq![b],
        ),
        JpegState::Skip { remaining } => (
            if remaining == 1 {
                JpegState::Prefix
            } else {
                JpegState::Skip { remaining: (remaining - 1) as u64 }
            },
            Seq::empty(),
        ),
        JpegState::Rest => (JpegState::Rest, seq![b]),
        JpegState::Done => (JpegState::Done, Seq::empty()),
        JpegState::Cut => (JpegState::Cut, Seq::empty()),
    }
}

/// The segment whose marker `m` and length bytes `hi`, `lo` open `r`.
proof fn lemma_jpeg_segment_unfold(m: u8, hi: u8, lo: u8, r: Seq<u8>)
    requires
        m != 0xFF,
        !jpeg_standalone(m),
    ensures
        ({
            let len = (hi as nat) * 256 + (lo as nat);
            let n = len - 2;
            let w = seq![0xFFu8, m, hi, lo];
            jpeg_marker(seq![m, hi, lo] + r) == if len < 2 {
                None
            } else if r.len() < n {
                None
            } else if jpeg_metadata(m) {
                jpeg_segments(r.skip(n))
            } else if m == 0xDA {
                Some(w + r)
            } else {
                prefix_with(w + r.take(n), jpeg_segments(r.skip(n)))
            }
        }),
{
    let y = seq![m, hi, lo] + r;
    let after = y.drop_first();
    assert(y[0] == m);
    assert(after =~= seq![hi, lo] + r);
    assert(after[0] == hi && after[1] == lo);
    let len = (hi as nat) * 256 + (lo as nat);
    if len >= 2 {
        let n = len - 2;
        if r.len() >= n {
            assert(after.skip(len as int) =~= r.skip(n));
            assert(seq![0xFFu8, m] + after.take(len as int) =~= seq![0xFFu8, m, hi, lo] + r.take(n));
            assert(seq![0xFFu8, m, hi, lo] + r.take(n) + r.skip(n) =~= seq![0xFFu8, m, hi, lo] + r);
        }
    }
}

proof fn lemma_jpeg_next_len2(m: u8, hi: u8, b: u8, r: Seq<u8>)
    requires
        m != 0xFF,
        !jpeg_standalone(m),
    ensures
        jpeg_wf(jpeg_next(JpegState::Len2 { m, hi }, b).0),
        jpeg_pending(JpegState::Len2 { m, hi }, seq![b] + r) == prefix_with(
            jpeg_next(JpegState::Len2 { m, hi }, b).1,
            jpeg_pending(jpeg_next(JpegState::Len2 { m, hi }, b).0, r),
        ),
{
    let (t, e) = jpeg_next(JpegState::Len2 { m, hi }, b);
    assert(seq![m, hi] + (seq![b] + r) =~= seq![m, hi, b] + r);
    lemma_jpeg_segment_unfold(m, hi, b, r);
    lemma_prefix_empty(jpeg_pending(t, r));
    let len = (hi as nat) * 256 + (b as nat);
    if len >= 2 {
        let n = (len - 2) as int;
        let w = seq![0xFFu8, m, hi, b];
        if r.len() >= n && !jpeg_metadata(m) && m != 0xDA {
            lemma_prefix_assoc(w, r.take(n), jpeg_segments(r.skip(n)));
        }
        if n == 0 {
            assert(r.take(0) =~= Seq::<u8>::empty());
            assert(r.skip(0) =~= r);
            assert(w + Seq::<u8>::empty() =~= w);
        }
    }
}

proof fn lemma_jpeg_next_keep(remaining: u64, scan: bool, b: u8, r: Seq<u8>)
    requires
        remaining > 0,
    ensures
        jpeg_wf(jpeg_next(JpegState::Keep { remaining, scan }, b).0),
        jpeg_pending(JpegState::Keep { remaining, scan }, seq![b] + r) == prefix_with(
            jpeg_next(JpegState::Keep { remaining, scan }, b).1,
            jpeg_pending(jpeg_next(JpegState::Keep { remaining, scan }, b).0, r),
        ),
{
    let x = seq![b] + r;
    let n = remaining as int;
    assert(x.len() < n <==> r.len() < n - 1);
    if r.len() >= n - 1 {
        assert(x.take(n) =~= seq![b] + r.take(n - 1));
        assert(x.skip(n) =~= r.skip(n - 1));
        lemma_prefix_assoc(seq![b], r.take(n - 1), jpeg_segments(r.skip(n - 1)));
        if n == 1 {
            assert(r.take(0) =~= Seq::<u8>::empty());
            assert(r.skip(0) =~= r);
            lemma_prefix_empty(jpeg_segments(r));
        }
    }
}

/// A step writes what the rest of the image, past the byte, leaves to write
/// after it.
proof fn lemma_jpeg_next(s: JpegState, b: u8, r: Seq<u8>)
    requires
        jpeg_wf(s),
    ensures
        jpeg_wf(jpeg_next(s, b).0),
        jpeg_pending(s, seq![b] + r) == prefix_with(
            jpeg_next(s, b).1,
            jpeg_pending(jpeg_next(s, b).0, r),
        ),
{
    let x = seq![b] + r;
    assert(x[0] == b);
    assert(x.drop_first() =~= r);
    let (t, e) = jpeg_next(s, b);
    match s {
        JpegState::Soi0 => {
            lemma_prefix_empty(jpeg_pending(t, r));
        },
        JpegState::Soi1 => {
            let y = seq![0xFFu8] + x;
            assert(y[0] == 0xFF && y[1] == b);
            lemma_prefix_empty(jpeg_pending(t, r));
            assert(y.skip(2) =~= r);
        },
        JpegState::Prefix => {
            lemma_prefix_empty(jpeg_pending(t, r));
        },
        JpegState::Marker => {
            lemma_prefix_empty(jpeg_pending(t, r));
            if b != 0xFF && jpeg_standalone(b) && b == 0xD9 {
                assert(e + Seq::<u8>::empty() =~= e);
            }
            if b != 0xFF && !jpeg_standalone(b) {
                assert(seq![b] + r =~= x);
            }
        },
        JpegState::Len1 { m } => {
            lemma_prefix_empty(jpeg_pending(t, r));
            assert(seq![m] + x =~= seq![m, b] + r);
        },
        JpegState::Len2 { m, hi } => {
            lemma_jpeg_next_len2(m, hi, b, r);
        },
        JpegState::Keep { remaining, scan } => {
            lemma_jpeg_next_keep(remaining, scan, b, r);
        },
        JpegState::Skip { remaining } => {
            let n = remaining as int;
            lemma_prefix_empty(jpeg_pending(t, r));
            if r.len() >= n - 1 {
                assert(x.skip(n) =~= r.skip(n - 1));
                if n == 1 {
                    assert(r.skip(0) =~= r);
                }
            }
        },
        JpegState::Rest => {},
        JpegState::Done => {
            lemma_prefix_empty(jpeg_pending(t, r));
        },
        JpegState::Cut => {},
    }
}

/// A JPEG being rewritten as it streams in.
#[derive(Debug)]
pub struct JpegStream {
    pub state: JpegState,
}

impl JpegStream {
    /// A stream that has seen nothing yet.
    pub fn new() -> (r: Self)
        ensures
            r.state == JpegState::Soi0,
            forall|d: Seq<u8>| #[trigger] jpeg_pending(r.state, d) == spec_strip_jpeg(d),
    {
        JpegStream { state: JpegState::Soi0 }
    }

    /// Takes the next chunk of the image and gives the bytes to write for it:
    /// with `r` for whatever follows the chunk, what was left to write before
    /// it is these bytes followed by what is left to write after it.
    pub fn feed(&mut self, chunk: &[u8]) -> (out: Vec<u8>)
        requires
            jpeg_wf(old(self).state),
        ensures
            jpeg_wf(final(self).state),
            forall|r: Seq<u8>| #[trigger]
                jpeg_pending(old(self).state, chunk@ + r) == prefix_with(
                    out@,
                    jpeg_pending(final(self).state, r),
                ),
    {
        let mut out: Vec<u8> = Vec::new();
        let ghost s0 = self.state;
        let mut i: usize = 0;
        while i < chunk.len()
            invariant
                i <= chunk.len(),
                jpeg_wf(self.state),
                forall|r: Seq<u8>| #[trigger]
                    jpeg_pending(s0, chunk@.take(i as int) + r) == prefix_with(
                        out@,
                        jpeg_pending(self.state, r),
                    ),
            decreases chunk.len() - i,
        {
            let b = chunk[i];
            let ghost before = self.state;
            let ghost out0 = out@;
            self.state = jpeg_step(self.state, b, &mut out);
            proof {
                assert forall|r: Seq<u8>| #[trigger]
                    jpeg_pending(s0, chunk@.take(i + 1) + r) == prefix_with(
                        out@,
                        jpeg_pending(self.state, r),
                    ) by {
                    assert(chunk@.take(i + 1) + r =~= chunk@.take(i as int) + (seq![b] + r));
                    assert(jpeg_pending(s0, chunk@.take(i as int) + (seq![b] + r)) == prefix_with(
                        out0,
                        jpeg_pending(before, seq![b] + r),
                    ));
                    lemma_jpeg_next(before, b, r);
                    lemma_prefix_assoc(out0, jpeg_next(before, b).1, jpeg_pending(self.state, r));
                }
            }
            i += 1;
        }
        proof {
            assert forall|r: Seq<u8>| #[trigger]
                jpeg_pending(s0, chunk@ + r) == prefix_with(
                    out@,
                    jpeg_pending(self.state, r),
                ) by {
                assert(chunk@.take(chunk@.len() as int) =~= chunk@);
            }
        }
        out
    }

    /// Whether the image ended complete: what was written is then all there
    /// is to write; otherwise the image is cut short or not a JPEG.
    pub fn complete(&self) -> (b: bool)
        requires
            jpeg_wf(self.state),
        ensures
            b ==> jpeg_pending(self.state, Seq::empty()) == Some(Seq::<u8>::empty()),
            !b ==> jpeg_pending(self.state, Seq::empty()) is None,
    {
        proof {
            let e = Seq::<u8>::empty();
            assert(e.skip(0) =~= e);
            assert((seq![0xFFu8] + e) =~= seq![0xFFu8]);
            if let JpegState::Len1 { m } = self.state {
                assert(seq![m] + e =~= seq![m]);
                assert(seq![m].drop_first() =~= e);
            }
            if let JpegState::Len2 { m, hi } = self.state {
                assert(seq![m, hi] + e =~= seq![m, hi]);
                assert(seq![m, hi].drop_first() =~= seq![hi]);
            }
        }
        match self.state {
            JpegState::Prefix | JpegState::Rest | JpegState::Done => true,
            _ => false,
        }
    }
}

fn jpeg_step(s: JpegState, b: u8, out: &mut Vec<u8>) -> (t: JpegState)
    requires
        jpeg_wf(s),
    ensures
        t == jpeg_next(s, b).0,
        final(out)@ == old(out)@ + jpeg_next(s, b).1,
{
    proof {
        assert(old(out)@ + Seq::<u8>::empty() =~= old(out)@);
    }
    match s {
        JpegState::Soi0 => if b == 0xFF {
            JpegState::Soi1
        } else {
            JpegState::Cut
        },
        JpegState::Soi1 => if b == 0xD8 {
            out.push(0xFF);
            out.push(0xD8);
            assert(out@ =~= old(out)@ + seq![0xFFu8, 0xD8u8]);
            JpegState::Prefix
        } else {
            JpegState::Cut
        },
        JpegState::Prefix => if b == 0xFF {
            JpegState::Marker
        } else {
            out.push(b);
            assert(out@ =~= old(out)@ + seq![b]);
            JpegState::Rest
        },
        JpegState::Marker => if b == 0xFF {
            JpegState::Marker
        } else if b == 0xD9 || b == 0x01 || (0xD0 <= b && b <= 0xD7) {
            out.push(0xFF);
            out.push(b);
            assert(out@ =~= old(out)@ + seq![0xFFu8, b]);
            if b == 0xD9 {
                JpegState::Done
            } else {
                JpegState::Prefix
            }
        } else {
            JpegState::Len1 { m: b }
        },
        JpegState::Len1 { m } => JpegState::Len2 { m, hi: b },
        JpegState::Len2 { m, hi } => {
            let len: u64 = (hi as u64) * 256 + (b as u64);
            if len < 2 {
                return JpegState::Cut;
            }
            let n: u64 = len - 2;
            if (0xE0 <= m && m <= 0xEF) || m == 0xFE {
                if n == 0 {
                    JpegState::Prefix
                } else {
                    JpegState::Skip { remaining: n }
                }
            } else {
                out.push(0xFF);
                out.push(m);
                out.push(hi);
                out.push(b);
                assert(out@ =~= old(out)@ + seq![0xFFu8, m, hi, b]);
                if n == 0 {
                    if m == 0xDA {
                        JpegState::Rest
                    } else {
                        JpegState::Prefix
                    }
                } else {
                    JpegState::Keep { remaining: n, scan: m == 0xDA }
                }
            }
        },
        JpegState::Keep { remaining, scan } => {
            out.push(b);
            assert(out@ =~= old(out)@ + seq![b]);
            if remaining == 1 {
                if scan {
                    JpegState::Rest
                } else {
                    JpegState::Prefix
                }
            } else {
                JpegState::Keep { remaining: remaining - 1, scan }
            }
        },
        JpegState::Skip { remaining } => if remaining == 1 {
            JpegState::Prefix
        } else {
            JpegState::Skip { remaining: remaining - 1 }
        },
        JpegState::Rest => {
            out.push(b);
            assert(out@ =~= old(out)@ + seq![b]);
            JpegState::Rest
        },
        JpegState::Done => JpegState::Done,
        JpegState::Cut => JpegState::Cut,
    }
}


// ---------------------------------------------------------------- PNG

/// Where a PNG stream stands.
#[derive(Clone, Copy, Debug, PartialEq, Eq, Structural)]
pub enum PngState {
    /// `matched` bytes of the signature were seen.
    Signature { matched: u8 },
    /// Collecting the eight bytes of a chunk header.
    Header,
    /// Copying `remaining` bytes of a critical chunk; `last` after `IEND`.
    Keep { remaining: u64, last: bool },
    /// Skipping `remaining` bytes of an ancillary chunk.
    Skip { remaining: u64, last: bool },
    /// `IEND` was passed; what follows is dropped.
    Done,
    /// The image is not a PNG or is broken; it is kept as it was.
    Cut,
}

/// The states a stream can be in; `h` holds the header bytes collected so far.
pub open spec fn png_wf(s: PngState, h: Seq<u8>) -> bool {
    match s {
        PngState::Signature { matched } => matched < 8,
        PngState::Header => h.len() < 8,
        PngState::Keep { remaining, last } => remaining > 0,
        PngState::Skip { remaining, last } => remaining > 0,
        _ => true,
    }
}

/// What follows a chunk: nothing after `IEND`, else the next chunks.
pub open spec fn png_after(last: bool, r: Seq<u8>) -> Option<Seq<u8>> {
    if last {
        Some(Seq::empty())
    } else {
        png_chunks(r)
    }
}

/// What is still to be written, from state `s` with header bytes `h`, when
/// `r` is the rest of the image.
pub open spec fn png_pending(s: PngState, h: Seq<u8>, r: Seq<u8>) -> Option<Seq<u8>> {
    match s {
        PngState::Signature { matched } => spec_strip_png(png_signature().take(matched as int) + r),
        PngState::Header => png_chunks(h + r),
        PngState::Keep { remaining, last } => if r.len() < remaining {
            None
        } else {
            prefix_with(r.take(remaining as int), png_after(last, r.skip(remaining as int)))
        },
        PngState::Skip { remaining, last } => if r.len() < remaining {
            None
        } else {
            png_after(last, r.skip(remaining as int))
        },
        PngState::Done => Some(Seq::empty()),
        PngState::Cut => None,
    }
}

/// One byte of a PNG stream: the next state, header bytes, and bytes to write.
pub open spec fn png_next(s: PngState, h: Seq<u8>, b: u8) -> (PngState, Seq<u8>, Seq<u8>) {
    match s {
        PngState::Signature { matched } => if b != png_signature()[matched as int] {
            (PngState::Cut, h, Seq::empty())
        } else if matched == 7 {
            (PngState::Header, Seq::empty(), png_signature())
        } else {
            (PngState::Signature { matched: (matched + 1) as u8 }, h, Seq::empty())
        },
        PngState::Header => {
            let g = h.push(b);
            if g.len() < 8 {
                (PngState::Header, g, Seq::empty())
            } else {
                let n = (be_u32_at(g, 0) + 4) as u64;
                if png_critical(g[4]) {
                    (PngState::Keep { remaining: n, last: png_is_iend(g) }, Seq::empty(), g)
                } else {
                    (PngState::Skip { remaining: n, last: png_is_iend(g) }, Seq::empty(), Seq::empty())
                }
            }
        },
        PngState::Keep { remaining, last } => (
            if remaining > 1 {
                PngState::Keep { remaining: (remaining - 1) as u64, last }
            } else if last {
                PngState::Done
            } else {
                PngState::Header
            },
            Seq::empty(),
            seq![b],
        ),
        PngState::Skip { remaining, last } => (
            if remaining > 1 {
                PngState::Skip { remaining: (remaining - 1) as u64, last }
            } else if last {
                PngState::Done
            } else {
                PngState::Header
            },
            Seq::empty(),
            Seq::empty(),
        ),
        PngState::Done => (PngState::Done, h, Seq::empty()),
        PngState::Cut => (PngState::Cut, h, Seq::empty()),
    }
}

proof fn lemma_png_next_signature(matched: u8, h: Seq<u8>, b: u8, r: Seq<u8>)
    requires
        matched < 8,
    ensures
        ({
            let (t, g, e) = png_next(PngState::Signature { matched }, h, b);
            png_wf(t, g) && png_pending(PngState::Signature { matched }, h, seq![b] + r)
                == prefix_with(e, png_pending(t, g, r))
        }),
{
    let k = matched as int;
    let sig = png_signature();
    let d = sig.take(k) + (seq![b] + r);
    let (t, g, e) = png_next(PngState::Signature { matched }, h, b);
    assert(d[k] == b);
    if b != sig[k] {
        if d.len() >= 8 {
            assert(d.take(8)[k] == b);
        }
        lemma_prefix_empty(png_pending(t, g, r));
    } else {
        assert(sig.take(k) + (seq![b] + r) =~= sig.take(k + 1) + r);
        if k == 7 {
            assert(sig.take(8) =~= sig);
            let d2 = sig + r;
            assert(d2.take(8) =~= sig);
            assert(d2.skip(8) =~= r);
            assert(Seq::<u8>::empty() + r =~= r);
        } else {
            lemma_prefix_empty(png_pending(t, g, r));
        }
    }
}

proof fn lemma_png_next_header(h: Seq<u8>, b: u8, r: Seq<u8>)
    requires
        h.len() < 8,
    ensures
        ({
            let (t, g, e) = png_next(PngState::Header, h, b);
            png_wf(t, g) && png_pending(PngState::Header, h, seq![b] + r) == prefix_with(
                e,
                png_pending(t, g, r),
            )
        }),
{
    let g = h.push(b);
    let (t, g2, e) = png_next(PngState::Header, h, b);
    assert(h + (seq![b] + r) =~= g + r);
    if g.len() < 8 {
        lemma_prefix_empty(png_pending(t, g2, r));
    } else {
        let rest = g + r;
        let n = be_u32_at(g, 0) + 4;
        assert(rest[0] == g[0] && rest[1] == g[1] && rest[2] == g[2] && rest[3] == g[3]);
        assert(rest[4] == g[4] && rest[5] == g[5] && rest[6] == g[6] && rest[7] == g[7]);
        assert(be_u32_at(rest, 0) == be_u32_at(g, 0));
        assert(png_is_iend(rest) == png_is_iend(g));
        assert(rest.len() < 8 + n <==> r.len() < n);
        assert(Seq::<u8>::empty() + r =~= r);
        if r.len() >= n {
            assert(rest.take(8 + n as int) =~= g + r.take(n as int));
            assert(rest.skip(8 + n as int) =~= r.skip(n as int));
            let a = png_after(png_is_iend(g), r.skip(n as int));
            lemma_prefix_assoc(g, r.take(n as int), a);
            lemma_prefix_empty(a);
            if png_is_iend(g) {
                assert(r.take(n as int) + Seq::<u8>::empty() =~= r.take(n as int));
                assert(Seq::<u8>::empty() + Seq::<u8>::empty() =~= Seq::<u8>::empty());
            }
        }
    }
}

proof fn lemma_png_next_body(remaining: u64, last: bool, keep: bool, b: u8, r: Seq<u8>)
    requires
        remaining > 0,
    ensures
        ({
            let s = if keep {
                PngState::Keep { remaining, last }
            } else {
                PngState::Skip { remaining, last }
            };
            let (t, g, e) = png_next(s, Seq::empty(), b);
            png_wf(t, g) && png_pending(s, Seq::empty(), seq![b] + r) == prefix_with(
                e,
                png_pending(t, g, r),
            )
        }),
{
    let n = remaining as int;
    let x = seq![b] + r;
    assert(x.len() < n <==> r.len() < n - 1);
    if r.len() >= n - 1 {
        assert(x.take(n) =~= seq![b] + r.take(n - 1));
        assert(x.skip(n) =~= r.skip(n - 1));
        let a = png_after(last, r.skip(n - 1));
        lemma_prefix_assoc(seq![b], r.take(n - 1), a);
        lemma_prefix_empty(a);
        if n == 1 {
            assert(r.take(0) =~= Seq::<u8>::empty());
            assert(r.skip(0) =~= r);
            assert(Seq::<u8>::empty() + r =~= r);
            lemma_prefix_empty(png_after(last, r));
        }
    }
}

proof fn lemma_png_next(s: PngState, h: Seq<u8>, b: u8, r: Seq<u8>)
    requires
        png_wf(s, h),
    ensures
        ({
            let (t, g, e) = png_next(s, h, b);
            png_wf(t, g) && png_pending(s, h, seq![b] + r) == prefix_with(e, png_pending(t, g, r))
        }),
{
    match s {
        PngState::Signature { matched } => lemma_png_next_signature(matched, h, b, r),
        PngState::Header => lemma_png_next_header(h, b, r),
        PngState::Keep { remaining, last } => {
            lemma_png_next_body(remaining, last, true, b, r);
            assert(png_next(s, h, b) == png_next(s, Seq::empty(), b));
        },
        PngState::Skip { remaining, last } => {
            lemma_png_next_body(remaining, last, false, b, r);
            assert(png_next(s, h, b) == png_next(s, Seq::empty(), b));
        },
        _ => {
            lemma_prefix_empty(png_pending(png_next(s, h, b).0, png_next(s, h, b).1, r));
        },
    }
}

/// A PNG being rewritten as it streams in.
#[derive(Debug)]
pub struct PngStream {
    pub state: PngState,
    /// The header bytes collected so far.
    pub header: Vec<u8>,
}

impl PngStream {
    /// A stream that has seen nothing yet.
    pub fn new() -> (r: Self)
        ensures
            r.state == (PngState::Signature { matched: 0 }),
            png_wf(r.state, r.header@),
            forall|d: Seq<u8>| #[trigger] png_pending(r.state, r.header@, d) == spec_strip_png(d),
    {
        let r = PngStream { state: PngState::Signature { matched: 0 }, header: Vec::new() };
        assert forall|d: Seq<u8>| #[trigger] png_pending(r.state, r.header@, d) == spec_strip_png(
            d,
        ) by {
            assert(png_signature().take(0) + d =~= d);
        }
        r
    }

    fn step(&mut self, b: u8, out: &mut Vec<u8>)
        requires
            png_wf(old(self).state, old(self).header@),
        ensures
            ({
                let (t, g, e) = png_next(old(self).state, old(self).header@, b);
                final(self).state == t && final(self).header@ == g && final(out)@ == old(out)@ + e
            }),
    {
        proof {
            assert(old(out)@ + Seq::<u8>::empty() =~= old(out)@);
        }
        match self.state {
            PngState::Signature { matched } => {
                let sig: [u8; 8] = [0x89, 0x50, 0x4E, 0x47, 0x0D, 0x0A, 0x1A, 0x0A];
                assert(sig@ =~= png_signature());
                if b != sig[matched as usize] {
                    self.state = PngState::Cut;
                } else if matched == 7 {
                    let mut i: usize = 0;
                    while i < 8
                        invariant
                            i <= 8,
                            sig@ == png_signature(),
                            out@ == old(out)@ + png_signature().take(i as int),
                        decreases 8 - i,
                    {
                        out.push(sig[i]);
                        assert(png_signature().take(i + 1) =~= png_signature().take(i as int).push(
                            sig@[i as int],
                        ));
                        i += 1;
                    }
                    assert(png_signature().take(8) =~= png_signature());
                    self.state = PngState::Header;
                    self.header = Vec::new();
                } else {
                    self.state = PngState::Signature { matched: matched + 1 };
                }
            },
            PngState::Header => {
                self.header.push(b);
                if self.header.len() == 8 {
                    let h = &self.header;
                    let head: [u8; 8] = [h[0], h[1], h[2], h[3], h[4], h[5], h[6], h[7]];
                    assert(head@ =~= self.header@);
                    let step = png_chunk_step(head);
                    if step.keep {
                        let mut i: usize = 0;
                        while i < 8
                            invariant
                                i <= 8,
                                out@ == old(out)@ + head@.take(i as int),
                            decreases 8 - i,
                        {
                            out.push(head[i]);
                            assert(head@.take(i + 1) =~= head@.take(i as int).push(head@[i as int]));
                            i += 1;
                        }
                        assert(head@.take(8) =~= head@);
                        self.state = PngState::Keep { remaining: step.body_len, last: step.last };
                    } else {
                        self.state = PngState::Skip { remaining: step.body_len, last: step.last };
                    }
                    self.header = Vec::new();
                }
            },
            PngState::Keep { remaining, last } => {
                out.push(b);
                assert(out@ =~= old(out)@ + seq![b]);
                self.state = if remaining > 1 {
                    PngState::Keep { remaining: remaining - 1, last }
                } else if last {
                    PngState::Done
                } else {
                    PngState::Header
                };
                self.header = Vec::new();
            },
            PngState::Skip { remaining, last } => {
                self.state = if remaining > 1 {
                    PngState::Skip { remaining: remaining - 1, last }
                } else if last {
                    PngState::Done
                } else {
                    PngState::Header
                };
                self.header = Vec::new();
            },
            PngState::Done => {},
            PngState::Cut => {},
        }
    }

    /// Takes the next chunk of the image and gives the bytes to write for it:
    /// with `r` for whatever follows the chunk, what was left to write before
    /// it is these bytes followed by what is left to write after it.
    pub fn feed(&mut self, chunk: &[u8]) -> (out: Vec<u8>)
        requires
            png_wf(old(self).state, old(self).header@),
        ensures
            png_wf(final(self).state, final(self).header@),
            forall|r: Seq<u8>| #[trigger]
                png_pending(old(self).state, old(self).header@, chunk@ + r) == prefix_with(
                    out@,
                    png_pending(final(self).state, final(self).header@, r),
                ),
    {
        let mut out: Vec<u8> = Vec::new();
        let ghost s0 = self.state;
        let ghost h0 = self.header@;
        let mut i: usize = 0;
        while i < chunk.len()
            invariant
                i <= chunk.len(),
                png_wf(self.state, self.header@),
                forall|r: Seq<u8>| #[trigger]
                    png_pending(s0, h0, chunk@.take(i as int) + r) == prefix_with(
                        out@,
                        png_pending(self.state, self.header@, r),
                    ),
            decreases chunk.len() - i,
        {
            let b = chunk[i];
            let ghost before = self.state;
            let ghost hb = self.header@;
            let ghost out0 = out@;
            self.step(b, &mut out);
            proof {
                lemma_png_next(before, hb, b, Seq::empty());
                assert forall|r: Seq<u8>| #[trigger]
                    png_pending(s0, h0, chunk@.take(i + 1) + r) == prefix_with(
                        out@,
                        png_pending(self.state, self.header@, r),
                    ) by {
                    assert(chunk@.take(i + 1) + r =~= chunk@.take(i as int) + (seq![b] + r));
                    assert(png_pending(s0, h0, chunk@.take(i as int) + (seq![b] + r)) == prefix_with(
                        out0,
                        png_pending(before, hb, seq![b] + r),
                    ));
                    lemma_png_next(before, hb, b, r);
                    lemma_prefix_assoc(
                        out0,
                        png_next(before, hb, b).2,
                        png_pending(self.state, self.header@, r),
                    );
                }
            }
            i += 1;
        }
        proof {
            assert forall|r: Seq<u8>| #[trigger]
                png_pending(s0, h0, chunk@ + r) == prefix_with(
                    out@,
                    png_pending(self.state, self.header@, r),
                ) by {
                assert(chunk@.take(chunk@.len() as int) =~= chunk@);
            }
        }
        out
    }

    /// Whether the image ended complete: what was written is then all there
    /// is to write; otherwise the image is cut short or not a PNG.
    pub fn complete(&self) -> (b: bool)
        requires
            png_wf(self.state, self.header@),
        ensures
            b ==> png_pending(self.state, self.header@, Seq::empty()) == Some(Seq::<u8>::empty()),
            !b ==> png_pending(self.state, self.header@, Seq::empty()) is None,
    {
        proof {
            let e = Seq::<u8>::empty();
            assert(self.header@ + e =~= self.header@);
            if let PngState::Signature { matched } = self.state {
                assert(png_signature().take(matched as int) + e =~= png_signature().take(
                    matched as int,
                ));
            }
        }
        match self.state {
            PngState::Header | PngState::Done => true,
            _ => false,
        }
    }
}


// ---------------------------------------------------------------- chunks

/// The bytes of a sequence of chunks, one after the other.
pub open spec fn chunks_concat(cs: Seq<Vec<u8>>) -> Seq<u8>
    decreases cs.len(),
{
    if cs.len() == 0 {
        Seq::empty()
    } else {
        chunks_concat(cs.drop_last()) + cs.last()@
    }
}

/// Rewrites a JPEG that arrives in `chunks`: the same as removing the
/// metadata from the whole image, whatever the chunks' sizes.
pub fn strip_jpeg_chunks(chunks: &Vec<Vec<u8>>) -> (r: Option<Vec<u8>>)
    ensures
        vec_opt_view(r) == spec_strip_jpeg(chunks_concat(chunks@)),
{
    let mut stream = JpegStream::new();
    let mut out: Vec<u8> = Vec::new();
    let mut i: usize = 0;
    while i < chunks.len()
        invariant
            i <= chunks.len(),
            jpeg_wf(stream.state),
            forall|r: Seq<u8>| #[trigger]
                spec_strip_jpeg(chunks_concat(chunks@.take(i as int)) + r) == prefix_with(
                    out@,
                    jpeg_pending(stream.state, r),
                ),
        decreases chunks.len() - i,
    {
        let ghost before = stream.state;
        let ghost out0 = out@;
        let part = stream.feed(chunks[i].as_slice());
        proof {
            assert forall|r: Seq<u8>| #[trigger]
                spec_strip_jpeg(chunks_concat(chunks@.take(i + 1)) + r) == prefix_with(
                    out0 + part@,
                    jpeg_pending(stream.state, r),
                ) by {
                assert(chunks@.take(i + 1).drop_last() =~= chunks@.take(i as int));
                assert(chunks_concat(chunks@.take(i + 1)) + r =~= chunks_concat(
                    chunks@.take(i as int),
                ) + (chunks@[i as int]@ + r));
                lemma_prefix_assoc(out0, part@, jpeg_pending(stream.state, r));
            }
        }
        let mut j: usize = 0;
        let ghost o1 = out@;
        while j < part.len()
            invariant
                j <= part.len(),
                out@ == o1 + part@.take(j as int),
            decreases part.len() - j,
        {
            out.push(part[j]);
            assert(part@.take(j + 1) =~= part@.take(j as int).push(part@[j as int]));
            j += 1;
        }
        assert(part@.take(part.len() as int) =~= part@);
        i += 1;
    }
    assert(chunks@.take(chunks.len() as int) =~= chunks@);
    assert(chunks_concat(chunks@) + Seq::<u8>::empty() =~= chunks_concat(chunks@));
    if stream.complete() {
        assert(out@ + Seq::<u8>::empty() =~= out@);
        Some(out)
    } else {
        None
    }
}

/// Rewrites a PNG that arrives in `chunks`: the same as removing the
/// ancillary chunks from the whole image, whatever the chunks' sizes.
pub fn strip_png_chunks(chunks: &Vec<Vec<u8>>) -> (r: Option<Vec<u8>>)
    ensures
        vec_opt_view(r) == spec_strip_png(chunks_concat(chunks@)),
{
    let mut stream = PngStream::new();
    let mut out: Vec<u8> = Vec::new();
    let mut i: usize = 0;
    while i < chunks.len()
        invariant
            i <= chunks.len(),
            png_wf(stream.state, stream.header@),
            forall|r: Seq<u8>| #[trigger]
                spec_strip_png(chunks_concat(chunks@.take(i as int)) + r) == prefix_with(
                    out@,
                    png_pending(stream.state, stream.header@, r),
                ),
        decreases chunks.len() - i,
    {
        let ghost out0 = out@;
        let part = stream.feed(chunks[i].as_slice());
        proof {
            assert forall|r: Seq<u8>| #[trigger]
                spec_strip_png(chunks_concat(chunks@.take(i + 1)) + r) == prefix_with(
                    out0 + part@,
                    png_pending(stream.state, stream.header@, r),
                ) by {
                assert(chunks@.take(i + 1).drop_last() =~= chunks@.take(i as int));
                assert(chunks_concat(chunks@.take(i + 1)) + r =~= chunks_concat(
                    chunks@.take(i as int),
                ) + (chunks@[i as int]@ + r));
                lemma_prefix_assoc(out0, part@, png_pending(stream.state, stream.header@, r));
            }
        }
        let mut j: usize = 0;
        let ghost o1 = out@;
        while j < part.len()
            invariant
                j <= part.len(),
                out@ == o1 + part@.take(j as int),
            decreases part.len() - j,
        {
            out.push(part[j]);
            assert(part@.take(j + 1) =~= part@.take(j as int).push(part@[j as int]));
            j += 1;
        }
        assert(part@.take(part.len() as int) =~= part@);
        i += 1;
    }
    assert(chunks@.take(chunks.len() as int) =~= chunks@);
    assert(chunks_concat(chunks@) + Seq::<u8>::empty() =~= chunks_concat(chunks@));
    if stream.complete() {
        assert(out@ + Seq::<u8>::empty() =~= out@);
        Some(out)
    } else {
        None
    }
}

} // verus!
