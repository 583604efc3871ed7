//! The JSON API: the shape of its errors and items, and the checks its routes
//! make before they act.
use vstd::prelude::*;
use crate::delivery::{
    app_base_url, file_url, raw_file_url, signed_internal_raw_url, spec_file_base_url,
    spec_signed_internal_raw_url, thumbnail_file_url, trim_end_char,
};
use crate::form_fields::refused_with;
use crate::model::{bad_request, FileItem, Paste, WebError};
use crate::settings::DeliveryConfig;
use crate::text::{
    append_str, ascii_lower, chars_of, is_blank, nonempty, opt_str_view, opt_view, spec_nonempty,
    str_eq, string_of, to_ascii_lowercase, trim,
};

verus! {

/// The reason phrase that the `http` crate gives a status code, if it knows one.
pub uninterp spec fn status_reason(code: u16) -> Option<Seq<char>>;

/// Asks the `http` crate (`StatusCode::from_u16`, `canonical_reason`) for the
/// reason phrase of a status code; the result is the name `status_reason` of
/// the code.
#[verifier::external_body]
fn canonical_reason(code: u16) -> (r: Option<String>)
    requires
        100 <= code <= 999,
    ensures
        opt_view(r) == status_reason(code),
{
    http::StatusCode::from_u16(code).ok().and_then(|s| s.canonical_reason()).map(|s| s.to_string())
}

/// `s` with every `from` replaced by `to`.
pub open spec fn replace_char(s: Seq<char>, from: char, to: char) -> Seq<char> {
    s.map_values(|c: char| if c == from { to } else { c })
}

/// The body of an API error.
#[derive(Debug)]
pub struct ApiErrorDetail {
    pub status: u16,
    pub code: String,
    pub message: String,
}

/// The JSON an API route answers with when it refuses a request.
#[derive(Debug)]
pub struct ApiErrorResponse {
    pub error: ApiErrorDetail,
}

/// The message of an error with this status: its reason phrase, else `error`.
pub open spec fn error_message(status: u16) -> Seq<char> {
    match status_reason(status) {
        Some(m) => m,
        None => "error"@,
    }
}

/// The machine-readable code of an error message: lower case, spaces made
/// underscores.
pub open spec fn error_code(message: Seq<char>) -> Seq<char> {
    replace_char(ascii_lower(message), ' ', '_')
}

fn snake_code(message: &str) -> (r: String)
    ensures
        r@ == error_code(message@),
{
    let lower = to_ascii_lowercase(message);
    let cs = chars_of(lower.as_str());
    let mut out: Vec<char> = Vec::new();
    let mut i: usize = 0;
    while i < cs.len()
        invariant
            i <= cs.len(),
            cs@ == ascii_lower(message@),
            out@ == replace_char(cs@.take(i as int), ' ', '_'),
        decreases cs.len() - i,
    {
        let c = cs[i];
        out.push(
            if c == ' ' {
                '_'
            } else {
                c
            },
        );
        assert(replace_char(cs@.take(i + 1), ' ', '_') =~= replace_char(cs@.take(i as int), ' ', '_').push(
            if c == ' ' {
                '_'
            } else {
                c
            },
        ));
        i += 1;
    }
    assert(cs@.take(cs.len() as int) == cs@);
    string_of(&out)
}

impl ApiErrorResponse {
    /// The error body for a status code.
    pub fn new(status: u16) -> (r: Self)
        requires
            100 <= status <= 999,
        ensures
            r.error.status == status,
            r.error.message@ == error_message(status),
            r.error.code@ == error_code(error_message(status)),
    {
        let message = match canonical_reason(status) {
            Some(m) => m,
            None => "error".to_owned(),
        };
        let code = snake_code(message.as_str());
        ApiErrorResponse { error: ApiErrorDetail { status, code, message } }
    }
}

/// A file as the API lists it. Its metadata is the JSON text it was stored
/// as, for the response to embed.
#[derive(Debug)]
pub struct ApiFileItem {
    pub id: String,
    pub url: String,
    pub raw_url: String,
    pub internal_url: Option<String>,
    pub thumbnail_url: Option<String>,
    pub filename: Option<String>,
    pub content_type: Option<String>,
    pub size_bytes: i64,
    pub image_width: Option<i64>,
    pub image_height: Option<i64>,
    pub visibility: String,
    pub metadata_json: Option<String>,
    pub expires_at: Option<i64>,
    pub state: String,
    pub created_at: i64,
}

/// A file as the API lists it at time `now`: its page under its slug, its raw
/// bytes and (when it has one) its thumbnail under the file base URL, a signed
/// internal link when those are on, and the stored fields as they are.
pub fn api_file_item(
    delivery: &DeliveryConfig,
    public_base_url: &str,
    file: &FileItem,
    slug: &str,
    now: i64,
) -> (r: ApiFileItem)
    requires
        now as int + (if delivery.internal_url_ttl_seconds >= 1 {
            delivery.internal_url_ttl_seconds as int
        } else {
            1
        }) <= i64::MAX,
    ensures
        r.id@ == file.public_id@,
        r.url@ == spec_file_base_url(*delivery, public_base_url@) + "/"@ + slug@,
        r.raw_url@ == spec_file_base_url(*delivery, public_base_url@) + "/files/"@
            + file.public_id@ + "/raw"@,
        opt_view(r.internal_url) == spec_signed_internal_raw_url(
            *delivery,
            public_base_url@,
            file.public_id@,
            now as int,
        ),
        opt_view(r.thumbnail_url) == match file.thumbnail_hash {
            Some(_) => Some(
                spec_file_base_url(*delivery, public_base_url@) + "/files/"@ + file.public_id@
                    + "/thumbnail"@,
            ),
            None => None,
        },
        opt_view(r.filename) == opt_view(file.original_filename),
        opt_view(r.content_type) == opt_view(file.content_type),
        r.size_bytes == file.size_bytes,
        r.image_width == file.image_width,
        r.image_height == file.image_height,
        r.visibility@ == file.visibility@,
        opt_view(r.metadata_json) == opt_view(file.metadata_json),
        r.expires_at == file.expires_at,
        r.state@ == file.state@,
        r.created_at == file.created_at,
{
    let id = file.public_id.as_str();
    let thumbnail_url = match &file.thumbnail_hash {
        Some(_) => Some(thumbnail_file_url(delivery, public_base_url, id)),
        None => None,
    };
    ApiFileItem {
        id: file.public_id.clone(),
        url: file_url(delivery, public_base_url, slug),
        raw_url: raw_file_url(delivery, public_base_url, id),
        internal_url: signed_internal_raw_url(delivery, public_base_url, id, now),
        thumbnail_url,
        filename: file.original_filename.clone(),
        content_type: file.content_type.clone(),
        size_bytes: file.size_bytes,
        image_width: file.image_width,
        image_height: file.image_height,
        visibility: file.visibility.clone(),
        metadata_json: file.metadata_json.clone(),
        expires_at: file.expires_at,
        state: file.state.clone(),
        created_at: file.created_at,
    }
}

/// A paste as the API lists it.
#[derive(Debug)]
pub struct ApiPasteItem {
    pub id: String,
    pub url: String,
    pub raw_url: String,
    pub title: Option<String>,
    pub syntax: Option<String>,
    pub size_bytes: usize,
    pub visibility: String,
    pub expires_at: Option<i64>,
    pub state: String,
    pub created_at: i64,
}

/// A paste's page and raw text live under `/p/` on the public base URL; its
/// size is the byte length of its text.
pub fn api_paste_item(public_base_url: &str, paste: &Paste) -> (r: ApiPasteItem)
    ensures
        r.id@ == paste.public_id@,
        r.url@ == trim_end_char(public_base_url@, '/') + "/p/"@ + paste.public_id@,
        r.raw_url@ == trim_end_char(public_base_url@, '/') + "/p/"@ + paste.public_id@ + "/raw"@,
        opt_view(r.title) == opt_view(paste.title),
        opt_view(r.syntax) == opt_view(paste.syntax),
        r.size_bytes == vstd::utf8::encode_utf8(paste.content@).len(),
        r.visibility@ == paste.visibility@,
        r.expires_at == paste.expires_at,
        r.state@ == paste.state@,
        r.created_at == paste.created_at,
{
    let base = app_base_url(public_base_url);
    let mut url = base.clone();
    append_str(&mut url, "/p/");
    append_str(&mut url, paste.public_id.as_str());
    let mut raw_url = url.clone();
    append_str(&mut raw_url, "/raw");
    ApiPasteItem {
        id: paste.public_id.clone(),
        url,
        raw_url,
        title: paste.title.clone(),
        syntax: paste.syntax.clone(),
        size_bytes: paste.content.as_str().as_bytes().len(),
        visibility: paste.visibility.clone(),
        expires_at: paste.expires_at,
        state: paste.state.clone(),
        created_at: paste.created_at,
    }
}

/// A report names a file or a paste.
pub fn check_report_kind(kind: &str) -> (r: Result<(), WebError>)
    ensures
        (kind@ == "file"@ || kind@ == "paste"@) ==> r is Ok,
        !(kind@ == "file"@ || kind@ == "paste"@) ==> refused_with(r, "kind must be file or paste"@),
{
    if !str_eq(kind, "file") && !str_eq(kind, "paste") {
        return Err(bad_request("kind must be file or paste"));
    }
    Ok(())
}

/// The earliest creation time of the reports an admin asks for: `days` days
/// before `now`, when `days` is positive.
pub fn report_window_start(days: Option<i64>, now: i64) -> (r: Option<i64>)
    requires
        days is Some && days->0 > 0 ==> days->0 * 86400 <= i64::MAX && now - days->0 * 86400
            >= i64::MIN,
    ensures
        r == match days {
            Some(d) => if d > 0 {
                Some((now - d * 86400) as i64)
            } else {
                None
            },
            None => None,
        },
{
    match days {
        Some(d) => if d > 0 {
            assert(d * 86400 <= now - i64::MIN);
            Some(now - d * 86400)
        } else {
            None
        },
        None => None,
    }
}

/// The spec form of the report window: `days` days before `now`, for a
/// positive `days`.
pub open spec fn window_start(days: Option<i64>, now: i64) -> Option<int> {
    match days {
        Some(d) => if d > 0 {
            Some(now - d * 86400)
        } else {
            None
        },
        None => None,
    }
}

/// A filter value that counts only when it is not empty.
pub open spec fn given(value: Option<Seq<char>>) -> Option<Seq<char>> {
    match value {
        Some(v) => if v.len() == 0 {
            None
        } else {
            Some(v)
        },
        None => None,
    }
}

/// A filter value that counts only when it is not blank; it is kept as typed.
pub open spec fn given_text(value: Option<Seq<char>>) -> Option<Seq<char>> {
    match value {
        Some(v) => if trim(v).len() == 0 {
            None
        } else {
            Some(v)
        },
        None => None,
    }
}

/// What a listing of moderation reports filters on.
pub struct ReportQuery<'a> {
    pub state: Option<&'a str>,
    pub kind: Option<&'a str>,
    pub reason: Option<&'a str>,
    pub created_after: Option<i64>,
}

/// The filters of a report listing, page or API: the state and the kind when
/// they are not empty, the reason when it is not blank, and the start of the
/// window of `days` days before `now`.
pub fn report_query<'a>(
    state: Option<&'a str>,
    kind: Option<&'a str>,
    reason: Option<&'a str>,
    days: Option<i64>,
    now: i64,
) -> (q: ReportQuery<'a>)
    requires
        days is Some && days->0 > 0 ==> days->0 * 86400 <= i64::MAX && now - days->0 * 86400
            >= i64::MIN,
    ensures
        opt_str_view(q.state) == given(opt_str_view(state)),
        opt_str_view(q.kind) == given(opt_str_view(kind)),
        opt_str_view(q.reason) == given_text(opt_str_view(reason)),
        q.created_after == match window_start(days, now) {
            Some(t) => Some(t as i64),
            None => None::<i64>,
        },
{
    let state = match state {
        Some(v) => if v.is_empty() {
            None
        } else {
            Some(v)
        },
        None => None,
    };
    let kind = match kind {
        Some(v) => if v.is_empty() {
            None
        } else {
            Some(v)
        },
        None => None,
    };
    let reason = match reason {
        Some(v) => if is_blank(v) {
            None
        } else {
            Some(v)
        },
        None => None,
    };
    ReportQuery { state, kind, reason, created_after: report_window_start(days, now) }
}

/// The filters of the report table that a moderation page reloads: each text
/// trimmed, and dropped when nothing is left of it.
pub struct ReportTableQuery {
    pub state: Option<String>,
    pub kind: Option<String>,
    pub reason: Option<String>,
    pub created_after: Option<i64>,
}

/// The filters of the reloaded report table: each text trimmed and kept when
/// something is left, and the start of the window of `days` days before `now`.
pub fn report_table_query(
    state: Option<&str>,
    kind: Option<&str>,
    reason: Option<&str>,
    days: Option<i64>,
    now: i64,
) -> (q: ReportTableQuery)
    requires
        days is Some && days->0 > 0 ==> days->0 * 86400 <= i64::MAX && now - days->0 * 86400
            >= i64::MIN,
    ensures
        opt_view(q.state) == spec_nonempty(opt_str_view(state)),
        opt_view(q.kind) == spec_nonempty(opt_str_view(kind)),
        opt_view(q.reason) == spec_nonempty(opt_str_view(reason)),
        q.created_after == match window_start(days, now) {
            Some(t) => Some(t as i64),
            None => None::<i64>,
        },
{
    ReportTableQuery {
        state: nonempty(state),
        kind: nonempty(kind),
        reason: nonempty(reason),
        created_after: report_window_start(days, now),
    }
}

} // verus!
