//! When items expire: which expiry text applies, and the limits an expiry
//! must keep.
use vstd::prelude::*;
use crate::form_fields::refused_with;
use crate::model::{bad_request, bad_request_with, WebError};
use crate::settings::RuntimeSettings;
use crate::text::{nonempty, opt_str_view, opt_view, spec_nonempty, str_eq};

verus! {

/// The expiry text that applies: the one given when it is not blank, else the
/// default when that is not blank; trimmed.
pub open spec fn spec_selected_expiry(input: Option<Seq<char>>, default_input: Option<Seq<char>>) -> Option<
    Seq<char>,
> {
    match spec_nonempty(input) {
        Some(t) => Some(t),
        None => spec_nonempty(default_input),
    }
}

pub fn selected_expiry_input(input: Option<&str>, default_input: Option<&str>) -> (r: Option<String>)
    ensures
        opt_view(r) == spec_selected_expiry(opt_str_view(input), opt_str_view(default_input)),
{
    match nonempty(input) {
        Some(t) => Some(t),
        None => nonempty(default_input),
    }
}

/// The most distant expiry allowed for a kind of item, by whether the
/// uploader is signed in.
pub open spec fn spec_max_expiry_input(settings: RuntimeSettings, kind: Seq<char>, signed_in: bool) -> Option<
    Seq<char>,
> {
    let e = settings.limits.expiry;
    if kind == "file"@ {
        if signed_in {
            opt_view(e.user_max_file_expiry)
        } else {
            opt_view(e.anonymous_max_file_expiry)
        }
    } else if kind == "paste"@ {
        if signed_in {
            opt_view(e.user_max_paste_expiry)
        } else {
            opt_view(e.anonymous_max_paste_expiry)
        }
    } else {
        None
    }
}

/// Each expiry limit applies to the uploaders its name says: a signed-in
/// uploader gets the user maximum and anyone else the anonymous maximum, for
/// files and for pastes alike; another kind of item has no maximum.
pub proof fn law_expiry_limit_follows_uploader(settings: RuntimeSettings, kind: Seq<char>)
    ensures
        spec_max_expiry_input(settings, "file"@, true) == opt_view(
            settings.limits.expiry.user_max_file_expiry,
        ),
        spec_max_expiry_input(settings, "file"@, false) == opt_view(
            settings.limits.expiry.anonymous_max_file_expiry,
        ),
        spec_max_expiry_input(settings, "paste"@, true) == opt_view(
            settings.limits.expiry.user_max_paste_expiry,
        ),
        spec_max_expiry_input(settings, "paste"@, false) == opt_view(
            settings.limits.expiry.anonymous_max_paste_expiry,
        ),
        kind != "file"@ && kind != "paste"@ ==> spec_max_expiry_input(settings, kind, true) is None
            && spec_max_expiry_input(settings, kind, false) is None,
{
    reveal_strlit("file");
    reveal_strlit("paste");
    assert("file"@ != "paste"@) by {
        assert("file"@[0] != "paste"@[0]);
    }
}

fn opt_as_str(o: &Option<String>) -> (r: Option<&str>)
    ensures
        opt_str_view(r) == opt_view(*o),
{
    match o {
        Some(s) => Some(s.as_str()),
        None => None,
    }
}

pub fn max_expiry_input<'a>(settings: &'a RuntimeSettings, kind: &str, signed_in: bool) -> (r: Option<
    &'a str,
>)
    ensures
        opt_str_view(r) == spec_max_expiry_input(*settings, kind@, signed_in),
{
    let e = &settings.limits.expiry;
    if str_eq(kind, "file") {
        if signed_in {
            opt_as_str(&e.user_max_file_expiry)
        } else {
            opt_as_str(&e.anonymous_max_file_expiry)
        }
    } else if str_eq(kind, "paste") {
        if signed_in {
            opt_as_str(&e.user_max_paste_expiry)
        } else {
            opt_as_str(&e.anonymous_max_paste_expiry)
        }
    } else {
        None
    }
}

/// `a - b`, held within the range of `i64`.
pub open spec fn sat_sub(a: i64, b: i64) -> int {
    if a - b > i64::MAX {
        i64::MAX as int
    } else if a - b < i64::MIN {
        i64::MIN as int
    } else {
        a - b
    }
}

fn saturating_sub(a: i64, b: i64) -> (r: i64)
    ensures
        r == sat_sub(a, b),
{
    let d: i128 = (a as i128) - (b as i128);
    if d > (i64::MAX as i128) {
        i64::MAX
    } else if d < (i64::MIN as i128) {
        i64::MIN
    } else {
        d as i64
    }
}

/// The limits an expiry must keep. `expiry` is when the item expires (`None`:
/// never); `max_expiry` is the configured maximum, read from its text, when
/// one is configured (`Some(None)`: it reads as never). The distances from
/// `now` are compared.
pub open spec fn spec_expiry_error(
    allow_never: bool,
    expiry: Option<i64>,
    max_expiry: Option<Option<i64>>,
    now: i64,
) -> Option<Seq<char>> {
    match expiry {
        None => if allow_never {
            None
        } else {
            Some("never-expiring items are disabled"@)
        },
        Some(x) => match max_expiry {
            None => None,
            Some(None) => Some("max expiry cannot be never"@),
            Some(Some(m)) => if sat_sub(x, now) > sat_sub(m, now) {
                Some("expiry exceeds configured maximum"@)
            } else {
                None
            },
        },
    }
}

pub fn check_expiry_limits(
    settings: &RuntimeSettings,
    expiry: Option<i64>,
    max_expiry: Option<Option<i64>>,
    now: i64,
) -> (r: Result<Option<i64>, WebError>)
    ensures
        match spec_expiry_error(settings.limits.expiry.allow_never, expiry, max_expiry, now) {
            Some(m) => refused_with(r, m),
            None => r == Ok::<Option<i64>, WebError>(expiry),
        },
{
    let x = match expiry {
        None => {
            if !settings.limits.expiry.allow_never {
                return Err(bad_request("never-expiring items are disabled"));
            }
            return Ok(None);
        },
        Some(x) => x,
    };
    match max_expiry {
        None => {},
        Some(None) => return Err(bad_request("max expiry cannot be never")),
        Some(Some(m)) => {
            if saturating_sub(x, now) > saturating_sub(m, now) {
                return Err(bad_request("expiry exceeds configured maximum"));
            }
        },
    }
    Ok(Some(x))
}

/// The refusal of an expiry text that does not read, with the reader's reason.
pub fn invalid_expiry(reason: &str) -> (e: WebError)
    ensures
        crate::model::is_bad_request(e, "invalid expiry: "@ + reason@),
{
    bad_request_with("invalid expiry: ", reason)
}

/// The refusal of a configured maximum that does not read, with the reason.
pub fn invalid_max_expiry(reason: &str) -> (e: WebError)
    ensures
        crate::model::is_bad_request(e, "invalid max expiry config: "@ + reason@),
{
    bad_request_with("invalid max expiry config: ", reason)
}

} // verus!
