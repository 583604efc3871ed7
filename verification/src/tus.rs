//! The resumable upload protocol: which chunks an upload session accepts and
//! when it is complete.
use vstd::prelude::*;
use crate::form_fields::refused_with;
use crate::model::{bad_request, WebError};
use crate::numbers::{i64_to_text, int_text};
use crate::settings::RuntimeSettings;
use crate::text::str_eq;

verus! {

/// The protocol version this server speaks.
pub open spec fn tus_version() -> Seq<char> {
    "1.0.0"@
}

pub open spec fn header_pairs_view(v: Seq<(&str, String)>) -> Seq<(Seq<char>, Seq<char>)> {
    v.map_values(|p: (&str, String)| (p.0@, p.1@))
}

/// The headers that answer a protocol discovery request.
pub fn tus_options(settings: &RuntimeSettings) -> (r: Vec<(&'static str, String)>)
    ensures
        header_pairs_view(r@) == seq![
            ("Tus-Resumable"@, tus_version()),
            ("Tus-Version"@, tus_version()),
            ("Tus-Extension"@, "creation"@),
            ("Tus-Max-Size"@, int_text(settings.limits.max_tus_upload_bytes as int)),
        ],
{
    let mut r: Vec<(&'static str, String)> = Vec::new();
    r.push(("Tus-Resumable", "1.0.0".to_owned()));
    r.push(("Tus-Version", "1.0.0".to_owned()));
    r.push(("Tus-Extension", "creation".to_owned()));
    r.push(("Tus-Max-Size", i64_to_text(settings.limits.max_tus_upload_bytes)));
    assert(header_pairs_view(r@) =~= seq![
        ("Tus-Resumable"@, tus_version()),
        ("Tus-Version"@, tus_version()),
        ("Tus-Extension"@, "creation"@),
        ("Tus-Max-Size"@, int_text(settings.limits.max_tus_upload_bytes as int)),
    ]);
    r
}

/// A session may announce at most the configured number of bytes.
pub fn check_tus_length(settings: &RuntimeSettings, total: i64) -> (r: Result<(), WebError>)
    ensures
        total > settings.limits.max_tus_upload_bytes ==> r matches Err(WebError::PayloadTooLarge),
        total <= settings.limits.max_tus_upload_bytes ==> r is Ok,
{
    if total > settings.limits.max_tus_upload_bytes {
        Err(WebError::PayloadTooLarge)
    } else {
        Ok(())
    }
}

/// An accepted chunk: the session's new offset, and whether that completes it.
#[derive(Clone, Copy, Debug, PartialEq, Eq)]
pub struct TusPatch {
    pub next_offset: i64,
    pub complete: bool,
}

/// What a session in `state`, holding `received` of `total` bytes, makes of a
/// chunk of `chunk_len` bytes sent for `offset`.
pub open spec fn spec_tus_patch(
    state: Seq<char>,
    received: i64,
    total: i64,
    offset: i64,
    chunk_len: nat,
) -> Result<TusPatch, Option<Seq<char>>> {
    if state != "open"@ {
        Err(Some("upload is not open"@))
    } else if offset != received {
        Err(Some("upload offset mismatch"@))
    } else if received + chunk_len > total {
        Err(None)
    } else {
        Ok(
            TusPatch {
                next_offset: (received + chunk_len) as i64,
                complete: received + chunk_len == total,
            },
        )
    }
}

/// Only an open session takes chunks, each at the offset it has reached, and
/// none that would carry it past its announced length (which is refused as
/// too large); the chunk that reaches the length completes it.
pub fn tus_patch(
    state: &str,
    received: i64,
    total: i64,
    offset: i64,
    chunk_len: usize,
) -> (r: Result<TusPatch, WebError>)
    ensures
        match spec_tus_patch(state@, received, total, offset, chunk_len as nat) {
            Ok(p) => r == Ok::<TusPatch, WebError>(p),
            Err(Some(m)) => refused_with(r, m),
            Err(None) => r matches Err(WebError::PayloadTooLarge),
        },
{
    if !str_eq(state, "open") {
        return Err(bad_request("upload is not open"));
    }
    if offset != received {
        return Err(bad_request("upload offset mismatch"));
    }
    let room: i128 = (total as i128) - (received as i128);
    if (chunk_len as i128) > room {
        return Err(WebError::PayloadTooLarge);
    }
    let next_offset: i64 = ((received as i128) + (chunk_len as i128)) as i64;
    Ok(TusPatch { next_offset, complete: next_offset == total })
}

/// A session never holds more than it announced: from any offset within the
/// length, an accepted chunk leaves the offset within the length, one past
/// the old offset by the chunk's size.
pub proof fn law_tus_offset_stays_within_length(
    state: Seq<char>,
    received: i64,
    total: i64,
    chunk_len: nat,
)
    requires
        0 <= received <= total,
    ensures
        spec_tus_patch(state, received, total, received, chunk_len) matches Ok(p) ==> (received
            <= p.next_offset <= total && p.next_offset == received + chunk_len && (p.complete
            <==> p.next_offset == total)),
{
}

} // verus!
