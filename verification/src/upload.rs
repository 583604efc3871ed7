//! Accepting an uploaded file: what it is held as, how its type is settled,
//! the size and preview kept while it streams in, and the checks it must pass
//! before it is stored.
use vstd::prelude::*;
use crate::crypto::{hex_lower, sha256, sha256_digest, to_hex_lower};
use crate::form_fields::refused_with;
use crate::imagestrip::{spec_strip_jpeg, spec_strip_png, strip_jpeg_metadata, strip_png_metadata};
use crate::model::{bad_request, bad_request_with, WebError};
use crate::net::{reject_private_ip, spec_is_private_upload_ip, IpValue};
use crate::settings::{RuntimeSettings, ScanDecision, UrlUploadConfig};
use crate::text::{
    append_str, ascii_lower, eq_ignore_ascii_case, eq_ignore_case, opt_str_view, opt_view, str_eq,
    strings_view, to_ascii_lowercase,
};

verus! {

/// How many leading bytes of an upload are kept in memory for sniffing.
pub const UPLOAD_PREVIEW_BYTES: usize = 262144;

/// The preview of `data`: its first `UPLOAD_PREVIEW_BYTES` bytes.
pub open spec fn preview_of(data: Seq<u8>) -> Seq<u8> {
    if data.len() <= UPLOAD_PREVIEW_BYTES {
        data
    } else {
        data.take(UPLOAD_PREVIEW_BYTES as int)
    }
}

/// The preview after `chunk` arrives: topped up to `UPLOAD_PREVIEW_BYTES`.
pub open spec fn spec_append_preview(preview: Seq<u8>, chunk: Seq<u8>) -> Seq<u8> {
    if preview.len() >= UPLOAD_PREVIEW_BYTES {
        preview
    } else if chunk.len() <= UPLOAD_PREVIEW_BYTES - preview.len() {
        preview + chunk
    } else {
        preview + chunk.take(UPLOAD_PREVIEW_BYTES - preview.len())
    }
}

/// Tops up `preview` with the start of `chunk`.
pub fn append_preview(preview: &mut Vec<u8>, chunk: &[u8])
    ensures
        final(preview)@ == spec_append_preview(old(preview)@, chunk@),
{
    if preview.len() >= UPLOAD_PREVIEW_BYTES {
        return;
    }
    let remaining = UPLOAD_PREVIEW_BYTES - preview.len();
    let n = if chunk.len() <= remaining {
        chunk.len()
    } else {
        remaining
    };
    let ghost start = preview@;
    let mut i: usize = 0;
    while i < n
        invariant
            i <= n <= chunk@.len(),
            preview@ == start + chunk@.take(i as int),
        decreases n - i,
    {
        preview.push(chunk[i]);
        assert(chunk@.take(i + 1) == chunk@.take(i as int).push(chunk@[i as int]));
        i += 1;
    }
    assert(chunk@.take(chunk@.len() as int) == chunk@);
}

/// Building the preview chunk by chunk gives the preview of the whole stream.
pub proof fn law_preview_streams(data: Seq<u8>, chunk: Seq<u8>)
    ensures
        spec_append_preview(preview_of(data), chunk) == preview_of(data + chunk),
{
    let p = UPLOAD_PREVIEW_BYTES as int;
    if data.len() >= p {
        assert((data + chunk).take(p) =~= data.take(p));
    } else if chunk.len() <= p - data.len() {
    } else {
        assert((data + chunk).take(p) =~= data + chunk.take(p - data.len()));
    }
}

/// A byte count as `i64`; counts beyond `i64::MAX` (which no buffer reaches)
/// stay at `i64::MAX`.
pub open spec fn count_i64(n: nat) -> i64 {
    if n <= i64::MAX {
        n as i64
    } else {
        i64::MAX
    }
}

fn len_i64(n: usize) -> (r: i64)
    ensures
        r == count_i64(n as nat),
{
    if (n as u64) <= 9223372036854775807u64 {
        n as i64
    } else {
        i64::MAX
    }
}

/// Where an upload's bytes are held.
#[derive(Debug)]
pub enum UploadedFileSource {
    Memory(Vec<u8>),
    TempPath(String),
}

/// An upload on its way in: its bytes (in memory or in a temporary file), the
/// name and type the client gave, its size and its first bytes.
#[derive(Debug)]
pub struct UploadedFile {
    pub source: UploadedFileSource,
    pub filename: Option<String>,
    pub content_type: Option<String>,
    pub size_bytes: i64,
    pub preview: Vec<u8>,
}

/// `after` is the in-memory upload `before` with its metadata stripped (or
/// as it was, where its type has no stripper or its image cannot be
/// rewritten): bytes, size and preview follow the stripped bytes, and the
/// name and declared type stay.
pub open spec fn memory_stripped(before: UploadedFile, content_type: Seq<char>, after: UploadedFile) -> bool {
    before.source matches UploadedFileSource::Memory(b) && {
        let s = match spec_strip_file_metadata(content_type, b@) {
            Some(t) => t,
            None => b@,
        };
        &&& after.source matches UploadedFileSource::Memory(c) && c@ == s
        &&& after.size_bytes == count_i64(s.len())
        &&& after.preview@ == preview_of(s)
        &&& after.filename == before.filename
        &&& after.content_type == before.content_type
    }
}

impl UploadedFile {
    /// An upload held in memory.
    pub fn from_bytes(bytes: Vec<u8>, filename: Option<String>, content_type: Option<String>) -> (r:
        Self)
        ensures
            r.source matches UploadedFileSource::Memory(b) && b@ == bytes@,
            r.size_bytes == count_i64(bytes@.len()),
            r.preview@ == preview_of(bytes@),
            r.filename == filename,
            r.content_type == content_type,
    {
        let mut preview: Vec<u8> = Vec::new();
        append_preview(&mut preview, bytes.as_slice());
        let size_bytes = len_i64(bytes.len());
        UploadedFile {
            source: UploadedFileSource::Memory(bytes),
            filename,
            content_type,
            size_bytes,
            preview,
        }
    }

    /// An upload written to a temporary file, with the size and preview
    /// counted while it was written.
    pub fn from_temp_path(
        path: String,
        size_bytes: i64,
        preview: Vec<u8>,
        filename: Option<String>,
        content_type: Option<String>,
    ) -> (r: Self)
        ensures
            r.source matches UploadedFileSource::TempPath(p) && p@ == path@,
            r.size_bytes == size_bytes,
            r.preview@ == preview@,
            r.filename == filename,
            r.content_type == content_type,
    {
        UploadedFile {
            source: UploadedFileSource::TempPath(path),
            filename,
            content_type,
            size_bytes,
            preview,
        }
    }

    /// The temporary file that holds the upload, if it is held in one.
    pub fn source_path(&self) -> (r: Option<&str>)
        ensures
            match self.source {
                UploadedFileSource::Memory(_) => r is None,
                UploadedFileSource::TempPath(p) => r matches Some(s) && s@ == p@,
            },
    {
        match &self.source {
            UploadedFileSource::Memory(_) => None,
            UploadedFileSource::TempPath(p) => Some(p.as_str()),
        }
    }

    pub fn preview(&self) -> (r: &[u8])
        ensures
            r@ == self.preview@,
    {
        self.preview.as_slice()
    }

    pub fn size_bytes(&self) -> (r: i64)
        ensures
            r == self.size_bytes,
    {
        self.size_bytes
    }

    /// Holds `bytes` in memory from now on; the temporary file that held the
    /// upload before, if any, is handed back to be removed.
    pub fn replace_with_bytes(&mut self, bytes: Vec<u8>) -> (old_path: Option<String>)
        ensures
            final(self).source matches UploadedFileSource::Memory(b) && b@ == bytes@,
            final(self).size_bytes == count_i64(bytes@.len()),
            final(self).preview@ == preview_of(bytes@),
            final(self).filename == old(self).filename,
            final(self).content_type == old(self).content_type,
            match old(self).source {
                UploadedFileSource::Memory(_) => old_path is None,
                UploadedFileSource::TempPath(p) => old_path matches Some(q) && q@ == p@,
            },
    {
        let mut preview: Vec<u8> = Vec::new();
        append_preview(&mut preview, bytes.as_slice());
        let size_bytes = len_i64(bytes.len());
        let mut previous = UploadedFileSource::Memory(bytes);
        std::mem::swap(&mut self.source, &mut previous);
        self.size_bytes = size_bytes;
        self.preview = preview;
        match previous {
            UploadedFileSource::Memory(_) => None,
            UploadedFileSource::TempPath(p) => Some(p),
        }
    }

    /// Holds the upload in the rewritten temporary file from now on; the file
    /// that held it before, if any, is handed back to be removed.
    pub fn replace_with_temp_rewrite(&mut self, rewrite: TempFileRewrite) -> (old_path: Option<
        String,
    >)
        ensures
            final(self).source matches UploadedFileSource::TempPath(p) && p@ == rewrite.path@,
            final(self).size_bytes == rewrite.size_bytes,
            final(self).preview@ == rewrite.preview@,
            final(self).filename == old(self).filename,
            final(self).content_type == old(self).content_type,
            match old(self).source {
                UploadedFileSource::Memory(_) => old_path is None,
                UploadedFileSource::TempPath(p) => old_path matches Some(q) && q@ == p@,
            },
    {
        let mut previous = UploadedFileSource::TempPath(rewrite.path);
        std::mem::swap(&mut self.source, &mut previous);
        self.size_bytes = rewrite.size_bytes;
        self.preview = rewrite.preview;
        match previous {
            UploadedFileSource::Memory(_) => None,
            UploadedFileSource::TempPath(p) => Some(p),
        }
    }

    /// Strips the metadata of an upload held in memory; one held in a
    /// temporary file is left as it is (it is rewritten as a stream).
    pub fn strip_metadata(&mut self, content_type: &str)
        ensures
            match old(self).source {
                UploadedFileSource::Memory(_) => memory_stripped(*old(self), content_type@, *final(self)),
                UploadedFileSource::TempPath(_) => *final(self) == *old(self),
            },
    {
        let stripped = match &self.source {
            UploadedFileSource::Memory(b) => match strip_file_metadata(content_type, b.as_slice()) {
                Some(t) => t,
                None => b.clone(),
            },
            UploadedFileSource::TempPath(_) => return ,
        };
        let _ = self.replace_with_bytes(stripped);
    }

    /// The lower case hexadecimal SHA-256 of an upload held in memory; one
    /// held in a temporary file is hashed as a stream.
    pub fn sha256_hex(&self) -> (r: Option<String>)
        ensures
            match self.source {
                UploadedFileSource::Memory(b) => r matches Some(h) && h@ == hex_lower(sha256(b@)),
                UploadedFileSource::TempPath(_) => r is None,
            },
    {
        match &self.source {
            UploadedFileSource::Memory(b) => {
                let digest = sha256_digest(b.as_slice());
                Some(to_hex_lower(digest.as_slice()))
            },
            UploadedFileSource::TempPath(_) => None,
        }
    }
}

/// A temporary file written with an upload's stripped bytes.
#[derive(Debug)]
pub struct TempFileRewrite {
    pub path: String,
    pub size_bytes: i64,
    pub preview: Vec<u8>,
}

/// The image formats whose metadata is stripped.
#[derive(Clone, Copy, Debug, PartialEq, Eq)]
pub enum StripFormat {
    Jpeg,
    Png,
}

pub open spec fn spec_strip_format(content_type: Seq<char>) -> Option<StripFormat> {
    if content_type == "image/jpeg"@ {
        Some(StripFormat::Jpeg)
    } else if content_type == "image/png"@ {
        Some(StripFormat::Png)
    } else {
        None
    }
}

/// Which stripper handles a content type: JPEG and PNG have one.
pub fn strip_format(content_type: &str) -> (r: Option<StripFormat>)
    ensures
        r == spec_strip_format(content_type@),
{
    if str_eq(content_type, "image/jpeg") {
        Some(StripFormat::Jpeg)
    } else if str_eq(content_type, "image/png") {
        Some(StripFormat::Png)
    } else {
        None
    }
}

/// The stripped bytes of a JPEG or PNG upload; `None` for other types and for
/// images that cannot be rewritten, which are then kept as they are.
pub open spec fn spec_strip_file_metadata(content_type: Seq<char>, data: Seq<u8>) -> Option<Seq<u8>> {
    match spec_strip_format(content_type) {
        Some(StripFormat::Jpeg) => spec_strip_jpeg(data),
        Some(StripFormat::Png) => spec_strip_png(data),
        None => None,
    }
}

pub open spec fn bytes_opt_view(r: Option<Vec<u8>>) -> Option<Seq<u8>> {
    match r {
        Some(v) => Some(v@),
        None => None,
    }
}

pub fn strip_file_metadata(content_type: &str, data: &[u8]) -> (r: Option<Vec<u8>>)
    ensures
        bytes_opt_view(r) == spec_strip_file_metadata(content_type@, data@),
{
    match strip_format(content_type) {
        Some(StripFormat::Jpeg) => strip_jpeg_metadata(data),
        Some(StripFormat::Png) => strip_png_metadata(data),
        None => None,
    }
}

/// The essence (`type/subtype`, parameters dropped) of a media type text as
/// the `mime` crate parses it; `None` when it does not parse.
pub uninterp spec fn mime_essence(text: Seq<char>) -> Option<Seq<char>>;

/// Parses a media type with the `mime` crate (`str::parse::<Mime>`) and takes
/// its `essence_str`; the result is the name `mime_essence` of the text.
#[verifier::external_body]
fn parse_mime_essence(value: &str) -> (r: Option<String>)
    ensures
        opt_view(r) == mime_essence(value@),
{
    value.parse::<mime::Mime>().ok().map(|m| m.essence_str().to_string())
}

/// The media type that `mime_guess` gives first for a file name, by its
/// extension; `None` when it knows none.
pub uninterp spec fn guessed_mime(file_name: Seq<char>) -> Option<Seq<char>>;

/// Asks `mime_guess::from_path` for the first media type of a file name and
/// takes its `essence_str`; the result is the name `guessed_mime` of the name.
#[verifier::external_body]
fn guess_mime(file_name: &str) -> (r: Option<String>)
    ensures
        opt_view(r) == guessed_mime(file_name@),
{
    mime_guess::from_path(file_name).first().map(|m| m.essence_str().to_string())
}

/// The type a file name suggests, else the generic binary type.
pub open spec fn spec_guess_or_octet(file_name: Seq<char>) -> Seq<char> {
    match guessed_mime(file_name) {
        Some(m) => m,
        None => "application/octet-stream"@,
    }
}

pub fn guessed_mime_or_octet(file_name: &str) -> (r: String)
    ensures
        r@ == spec_guess_or_octet(file_name@),
{
    match guess_mime(file_name) {
        Some(m) => m,
        None => "application/octet-stream".to_owned(),
    }
}

/// The declared media type, reduced to its lower case essence.
pub open spec fn spec_clean_mime(value: Seq<char>) -> Option<Seq<char>> {
    match mime_essence(value) {
        Some(e) => Some(ascii_lower(e)),
        None => None,
    }
}

pub fn clean_mime(value: &str) -> (r: Option<String>)
    ensures
        opt_view(r) == spec_clean_mime(value@),
{
    match parse_mime_essence(value) {
        Some(e) => Some(to_ascii_lowercase(e.as_str())),
        None => None,
    }
}

/// The generic binary media type.
pub open spec fn octet_stream() -> Seq<char> {
    "application/octet-stream"@
}

/// The refusal when the sniffed type contradicts a candidate from `source`;
/// the generic binary type contradicts nothing.
pub open spec fn spec_mime_mismatch(sniffed: Seq<char>, candidate: Seq<char>, source: Seq<char>) -> Option<
    Seq<char>,
> {
    if candidate == octet_stream() || sniffed == octet_stream() {
        None
    } else if sniffed != candidate {
        Some("detected MIME "@ + sniffed + " does not match "@ + source + " "@ + candidate)
    } else {
        None
    }
}

pub fn reject_mime_mismatch(sniffed: &str, candidate: &str, source: &str) -> (r: Result<(), WebError>)
    ensures
        match spec_mime_mismatch(sniffed@, candidate@, source@) {
            Some(m) => refused_with(r, m),
            None => r is Ok,
        },
{
    if str_eq(candidate, "application/octet-stream") || str_eq(sniffed, "application/octet-stream") {
        return Ok(());
    }
    if !str_eq(sniffed, candidate) {
        let mut m = "detected MIME ".to_owned();
        append_str(&mut m, sniffed);
        append_str(&mut m, " does not match ");
        append_str(&mut m, source);
        append_str(&mut m, " ");
        append_str(&mut m, candidate);
        return Err(WebError::BadRequest(m));
    }
    Ok(())
}

/// The content type an upload is stored with: the sniffed type unless it is
/// the generic binary one, else the declared type, else the type guessed from
/// the file name, else the generic binary type. When mismatches are refused,
/// a sniffed type that contradicts the declared type, or else the guess,
/// refuses the upload.
pub open spec fn spec_choose_content_type(
    reject_mismatch: bool,
    declared: Option<Seq<char>>,
    extension_guess: Option<Seq<char>>,
    sniffed: Option<Seq<char>>,
) -> Result<Seq<char>, Seq<char>> {
    let declared_clash = match (sniffed, declared) {
        (Some(s), Some(d)) => spec_mime_mismatch(s, d, "declared content type"@),
        _ => None,
    };
    let guess_clash = match (sniffed, extension_guess) {
        (Some(s), Some(g)) => spec_mime_mismatch(s, g, "filename extension"@),
        _ => None,
    };
    if reject_mismatch && declared_clash is Some {
        Err(declared_clash->0)
    } else if reject_mismatch && guess_clash is Some {
        Err(guess_clash->0)
    } else if sniffed is Some && sniffed->0 != octet_stream() {
        Ok(sniffed->0)
    } else if declared is Some {
        Ok(declared->0)
    } else if extension_guess is Some {
        Ok(extension_guess->0)
    } else {
        Ok(octet_stream())
    }
}

pub fn choose_content_type(
    reject_mismatch: bool,
    declared: Option<&str>,
    extension_guess: Option<&str>,
    sniffed: Option<&str>,
) -> (r: Result<String, WebError>)
    ensures
        match spec_choose_content_type(
            reject_mismatch,
            opt_str_view(declared),
            opt_str_view(extension_guess),
            opt_str_view(sniffed),
        ) {
            Ok(t) => r matches Ok(s) && s@ == t,
            Err(m) => refused_with(r, m),
        },
{
    if reject_mismatch {
        if let (Some(s), Some(d)) = (sniffed, declared) {
            match reject_mime_mismatch(s, d, "declared content type") {
                Ok(()) => {},
                Err(e) => return Err(e),
            }
        }
        if let (Some(s), Some(g)) = (sniffed, extension_guess) {
            match reject_mime_mismatch(s, g, "filename extension") {
                Ok(()) => {},
                Err(e) => return Err(e),
            }
        }
    }
    if let Some(s) = sniffed {
        if !str_eq(s, "application/octet-stream") {
            return Ok(s.to_owned());
        }
    }
    if let Some(d) = declared {
        return Ok(d.to_owned());
    }
    if let Some(g) = extension_guess {
        return Ok(g.to_owned());
    }
    Ok("application/octet-stream".to_owned())
}

/// The declared type of an upload, cleaned.
pub open spec fn declared_type(uploaded: &UploadedFile) -> Option<Seq<char>> {
    match uploaded.content_type {
        Some(c) => spec_clean_mime(c@),
        None => None,
    }
}

/// The type guessed from an upload's file name.
pub open spec fn name_guess(uploaded: &UploadedFile) -> Option<Seq<char>> {
    match uploaded.filename {
        Some(n) => guessed_mime(n@),
        None => None,
    }
}

/// Settles the content type of an upload, given what sniffing its preview
/// found (`sniffed`).
pub fn resolved_content_type(
    settings: &RuntimeSettings,
    uploaded: &UploadedFile,
    sniffed: Option<&str>,
) -> (r: Result<String, WebError>)
    ensures
        match spec_choose_content_type(
            settings.security.reject_mime_mismatch,
            declared_type(uploaded),
            name_guess(uploaded),
            opt_str_view(sniffed),
        ) {
            Ok(t) => r matches Ok(s) && s@ == t,
            Err(m) => refused_with(r, m),
        },
{
    let declared = match &uploaded.content_type {
        Some(c) => clean_mime(c.as_str()),
        None => None,
    };
    let guess = match &uploaded.filename {
        Some(n) => guess_mime(n.as_str()),
        None => None,
    };
    let d = match &declared {
        Some(x) => Some(x.as_str()),
        None => None,
    };
    let g = match &guess {
        Some(x) => Some(x.as_str()),
        None => None,
    };
    choose_content_type(settings.security.reject_mime_mismatch, d, g, sniffed)
}

/// Whether a list holds `s`, up to ASCII case.
pub open spec fn has_ignore_case(list: Seq<Seq<char>>, s: Seq<char>) -> bool {
    exists|i: int| 0 <= i < list.len() && eq_ignore_case(#[trigger] list[i], s)
}

pub fn contains_ignore_case(list: &Vec<String>, s: &str) -> (b: bool)
    ensures
        b == has_ignore_case(strings_view(list@), s@),
{
    let mut i: usize = 0;
    while i < list.len()
        invariant
            i <= list.len(),
            forall|k: int| 0 <= k < i ==> !eq_ignore_case(#[trigger] strings_view(list@)[k], s@),
        decreases list.len() - i,
    {
        if eq_ignore_ascii_case(list[i].as_str(), s) {
            assert(strings_view(list@)[i as int] == list@[i as int]@);
            return true;
        }
        i += 1;
    }
    false
}

/// The first content policy rule an upload with this name and type breaks.
pub open spec fn spec_upload_policy_error(
    settings: RuntimeSettings,
    filename: Option<Seq<char>>,
    content_type: Seq<char>,
) -> Option<Seq<char>> {
    let policy = settings.security.content_policy;
    if filename matches Some(n) && vstd::utf8::encode_utf8(n).len() > policy.max_filename_bytes {
        Some("filename is too long"@)
    } else if policy.allowed_mime_types@.len() > 0 && !has_ignore_case(
        strings_view(policy.allowed_mime_types@),
        content_type,
    ) {
        Some("file type is not allowed"@)
    } else {
        None
    }
}

/// An upload's file name must fit the byte limit and, when the allowed types
/// are listed, its type must be one of them.
pub fn check_upload_policy(settings: &RuntimeSettings, uploaded: &UploadedFile, content_type: &str) -> (r:
    Result<(), WebError>)
    ensures
        match spec_upload_policy_error(*settings, opt_view(uploaded.filename), content_type@) {
            Some(m) => refused_with(r, m),
            None => r is Ok,
        },
{
    let policy = &settings.security.content_policy;
    if let Some(n) = &uploaded.filename {
        if n.as_str().as_bytes().len() > policy.max_filename_bytes {
            return Err(bad_request("filename is too long"));
        }
    }
    if policy.allowed_mime_types.len() > 0 && !contains_ignore_case(
        &policy.allowed_mime_types,
        content_type,
    ) {
        return Err(bad_request("file type is not allowed"));
    }
    Ok(())
}

/// The first scanning block list an upload with this hash and type is on.
pub open spec fn spec_blocked_upload_error(settings: RuntimeSettings, hash: Seq<char>, content_type: Seq<char>) -> Option<
    Seq<char>,
> {
    if has_ignore_case(strings_view(settings.scanning.blocked_hashes@), hash) {
        Some("file hash is blocked"@)
    } else if has_ignore_case(strings_view(settings.scanning.blocked_mime_types@), content_type) {
        Some("file type is blocked"@)
    } else {
        None
    }
}

/// Refuses uploads whose hash or type is on the scanning block lists.
pub fn check_blocked_upload(settings: &RuntimeSettings, hash: &str, content_type: &str) -> (r: Result<
    (),
    WebError,
>)
    ensures
        match spec_blocked_upload_error(*settings, hash@, content_type@) {
            Some(m) => refused_with(r, m),
            None => r is Ok,
        },
{
    if contains_ignore_case(&settings.scanning.blocked_hashes, hash) {
        return Err(bad_request("file hash is blocked"));
    }
    if contains_ignore_case(&settings.scanning.blocked_mime_types, content_type) {
        return Err(bad_request("file type is blocked"));
    }
    Ok(())
}

/// The state a scanned upload is stored in: rejected uploads are refused,
/// quarantined ones are stored as `quarantined`, the rest as `active`.
pub fn scan_file_state(decision: ScanDecision) -> (r: Result<&'static str, WebError>)
    ensures
        decision == ScanDecision::Reject ==> refused_with(r, "upload rejected by scanner"@),
        decision == ScanDecision::Quarantine ==> (r matches Ok(s) && s@ == "quarantined"@),
        decision == ScanDecision::Allow ==> (r matches Ok(s) && s@ == "active"@),
{
    match decision {
        ScanDecision::Reject => Err(bad_request("upload rejected by scanner")),
        ScanDecision::Quarantine => Ok("quarantined"),
        ScanDecision::Allow => Ok("active"),
    }
}

/// After it is stored, a quarantined upload is still refused to the uploader.
pub fn finish_upload(file_state: &str) -> (r: Result<(), WebError>)
    ensures
        file_state@ == "quarantined"@ ==> refused_with(r, "upload quarantined by scanner"@),
        file_state@ != "quarantined"@ ==> r is Ok,
{
    if str_eq(file_state, "quarantined") {
        Err(bad_request("upload quarantined by scanner"))
    } else {
        Ok(())
    }
}

/// The byte count and preview of an upload while it streams in, with the
/// limit it may not exceed.
#[derive(Debug)]
pub struct UploadMeter {
    pub total: i64,
    pub limit: i64,
    pub preview: Vec<u8>,
}

/// `a + b`, held at `i64::MAX`.
pub open spec fn sat_add(a: i64, b: nat) -> i64 {
    if a + b > i64::MAX {
        i64::MAX
    } else {
        (a + b) as i64
    }
}

impl UploadMeter {
    pub fn new(limit: i64) -> (r: Self)
        ensures
            r.total == 0,
            r.limit == limit,
            r.preview@ == Seq::<u8>::empty(),
    {
        UploadMeter { total: 0, limit, preview: Vec::new() }
    }

    /// Counts a chunk; one that takes the total over the limit refuses the
    /// upload as too large.
    pub fn feed(&mut self, chunk: &[u8]) -> (r: Result<(), WebError>)
        ensures
            final(self).limit == old(self).limit,
            final(self).total == sat_add(old(self).total, count_i64(chunk@.len()) as nat),
            final(self).total > old(self).limit ==> r matches Err(WebError::PayloadTooLarge),
            final(self).total <= old(self).limit ==> r is Ok && final(self).preview@
                == spec_append_preview(old(self).preview@, chunk@),
    {
        let n = len_i64(chunk.len());
        let t: i64 = if self.total > i64::MAX - n {
            i64::MAX
        } else {
            self.total + n
        };
        self.total = t;
        if t > self.limit {
            return Err(WebError::PayloadTooLarge);
        }
        append_preview(&mut self.preview, chunk);
        Ok(())
    }
}

/// A file field with no bytes is refused.
pub fn finish_upload_field(meter: &UploadMeter) -> (r: Result<(), WebError>)
    ensures
        meter.total == 0 ==> refused_with(r, "empty files are not accepted"@),
        meter.total != 0 ==> r is Ok,
{
    if meter.total == 0 {
        Err(bad_request("empty files are not accepted"))
    } else {
        Ok(())
    }
}

/// The most bytes a URL upload may read: the upload limit, lowered to the
/// response limit when there is one.
pub open spec fn spec_response_limit(settings: RuntimeSettings) -> i64 {
    let up = settings.limits.max_upload_bytes;
    match settings.security.url_upload.max_response_bytes {
        Some(m) => if m < up {
            m
        } else {
            up
        },
        None => up,
    }
}

/// The most bytes a URL upload may read; a negative limit refuses every
/// response.
pub fn url_response_limit(settings: &RuntimeSettings) -> (r: Result<i64, WebError>)
    ensures
        spec_response_limit(*settings) < 0 ==> r matches Err(WebError::PayloadTooLarge),
        spec_response_limit(*settings) >= 0 ==> r == Ok::<i64, WebError>(
            spec_response_limit(*settings),
        ),
{
    let mut limit = settings.limits.max_upload_bytes;
    if let Some(m) = settings.security.url_upload.max_response_bytes {
        if m < limit {
            limit = m;
        }
    }
    if limit < 0 {
        return Err(WebError::PayloadTooLarge);
    }
    Ok(limit)
}

/// An `i64` limit as `u64`, the way `as` converts it: a negative limit wraps
/// around to a value above `i64::MAX`.
pub open spec fn wrap_u64(x: i64) -> int {
    if x >= 0 {
        x as int
    } else {
        x + 18446744073709551616
    }
}

fn to_u64_wrapping(x: i64) -> (r: u64)
    ensures
        r == wrap_u64(x),
{
    if x >= 0 {
        x as u64
    } else {
        let y: i64 = (x + i64::MAX) + 1;
        (y as u64) + 9223372036854775808u64
    }
}

/// Whether an announced length exceeds the upload limit or the response limit.
pub open spec fn spec_length_too_large(settings: RuntimeSettings, length: Option<u64>) -> bool {
    match length {
        None => false,
        Some(n) => n > wrap_u64(settings.limits.max_upload_bytes) || match settings.security.url_upload.max_response_bytes {
            Some(m) => n > wrap_u64(m),
            None => false,
        },
    }
}

/// A response that announces more bytes than the upload or response limit
/// allows is refused before it is read.
pub fn check_content_length(settings: &RuntimeSettings, length: Option<u64>) -> (r: Result<
    (),
    WebError,
>)
    ensures
        spec_length_too_large(*settings, length) ==> r matches Err(WebError::PayloadTooLarge),
        !spec_length_too_large(*settings, length) ==> r is Ok,
{
    if let Some(n) = length {
        if n > to_u64_wrapping(settings.limits.max_upload_bytes) {
            return Err(WebError::PayloadTooLarge);
        }
        if let Some(m) = settings.security.url_upload.max_response_bytes {
            if n > to_u64_wrapping(m) {
                return Err(WebError::PayloadTooLarge);
            }
        }
    }
    Ok(())
}

/// Whether private addresses are blocked and the response came from one.
pub open spec fn spec_remote_addr_refused(cfg: UrlUploadConfig, addr: Option<IpValue>) -> bool {
    addr matches Some(a) && cfg.block_private_ips && spec_is_private_upload_ip(a)
}

/// The address a URL upload's response came from must not be private when
/// private addresses are blocked.
pub fn reject_url_upload_remote_addr(cfg: &UrlUploadConfig, addr: Option<IpValue>) -> (r: Result<
    (),
    WebError,
>)
    ensures
        spec_remote_addr_refused(*cfg, addr) ==> refused_with(
            r,
            "URL resolved to a private or local address"@,
        ),
        !spec_remote_addr_refused(*cfg, addr) ==> r is Ok,
{
    if cfg.block_private_ips {
        if let Some(a) = addr {
            return reject_private_ip(a);
        }
    }
    Ok(())
}

/// What `Url::join` of the `url` crate makes of a reference against a base
/// URL: the joined URL, or the text of its parse error.
pub uninterp spec fn joined_url(base: Seq<char>, reference: Seq<char>) -> Result<Seq<char>, Seq<char>>;

/// Parses `base` and joins `reference` to it with the `url` crate
/// (`Url::parse`, `Url::join`); the result is the name `joined_url` of the two.
#[verifier::external_body]
fn join_url(base: &str, reference: &str) -> (r: Result<String, String>)
    ensures
        match r {
            Ok(u) => joined_url(base@, reference@) == Ok::<Seq<char>, Seq<char>>(u@),
            Err(e) => joined_url(base@, reference@) == Err::<Seq<char>, Seq<char>>(e@),
        },
{
    let b = match url::Url::parse(base) {
        Ok(b) => b,
        Err(e) => return Err(e.to_string()),
    };
    match b.join(reference) {
        Ok(u) => Ok(u.to_string()),
        Err(e) => Err(e.to_string()),
    }
}

/// Where a redirect of a URL upload leads, given the redirect number, the
/// redirect limit, the current URL and the `Location` header.
pub open spec fn spec_redirect_target(
    redirect_count: usize,
    max_redirects: usize,
    current: Seq<char>,
    location: Option<Seq<char>>,
) -> Result<Seq<char>, Seq<char>> {
    if redirect_count == max_redirects {
        Err("URL upload exceeded redirect limit"@)
    } else if location is None {
        Err("redirect missing Location"@)
    } else {
        match joined_url(current, location->0) {
            Ok(u) => Ok(u),
            Err(e) => Err("invalid redirect URL: "@ + e),
        }
    }
}

pub fn redirect_target(
    redirect_count: usize,
    max_redirects: usize,
    current: &str,
    location: Option<&str>,
) -> (r: Result<String, WebError>)
    ensures
        match spec_redirect_target(redirect_count, max_redirects, current@, opt_str_view(location)) {
            Ok(u) => r matches Ok(s) && s@ == u,
            Err(m) => refused_with(r, m),
        },
{
    if redirect_count == max_redirects {
        return Err(bad_request("URL upload exceeded redirect limit"));
    }
    let loc = match location {
        Some(l) => l,
        None => return Err(bad_request("redirect missing Location")),
    };
    match join_url(current, loc) {
        Ok(u) => Ok(u),
        Err(e) => Err(bad_request_with("invalid redirect URL: ", e.as_str())),
    }
}

/// The fields of an upload form that the reader keeps.
#[derive(Clone, Copy, Debug, PartialEq, Eq)]
pub enum UploadField {
    Expires,
    Visibility,
    CsrfToken,
    File,
    Other,
}

/// Which field of an upload form a part is, by its name.
pub fn upload_field(name: &str) -> (r: UploadField)
    ensures
        r == if name@ == "expires"@ {
            UploadField::Expires
        } else if name@ == "visibility"@ {
            UploadField::Visibility
        } else if name@ == "csrf_token"@ {
            UploadField::CsrfToken
        } else if name@ == "file"@ {
            UploadField::File
        } else {
            UploadField::Other
        },
{
    if str_eq(name, "expires") {
        UploadField::Expires
    } else if str_eq(name, "visibility") {
        UploadField::Visibility
    } else if str_eq(name, "csrf_token") {
        UploadField::CsrfToken
    } else if str_eq(name, "file") {
        UploadField::File
    } else {
        UploadField::Other
    }
}

/// An upload form must carry a file.
pub fn require_file_field(file: Option<UploadedFile>) -> (r: Result<UploadedFile, WebError>)
    ensures
        file is None ==> refused_with(r, "missing file field"@),
        file is Some ==> r == Ok::<UploadedFile, WebError>(file->0),
{
    match file {
        Some(f) => Ok(f),
        None => Err(bad_request("missing file field")),
    }
}

} // verus!
