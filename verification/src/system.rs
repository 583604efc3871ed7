//! Service routes: crawler rules, readiness, who may read metrics, and which
//! static assets are served.
use vstd::prelude::*;
use crate::net::{is_loopback, spec_is_loopback, IpValue};
use crate::settings::{MetricsAccessMode, RuntimeSettings};
use crate::text::{chars_of, opt_str_view, opt_view, str_eq};
use crate::upload::guessed_mime_or_octet;
use crate::model::WebError;

verus! {

/// The robots rules: crawlers may index the public listing when it is on and
/// indexing is allowed, and nothing otherwise.
pub fn robots_txt(settings: &RuntimeSettings) -> (r: &'static str)
    ensures
        r@ == if settings.features.public_browse && settings.discovery.robots_index {
            "User-agent: *\nAllow: /browse\n"@
        } else {
            "User-agent: *\nDisallow: /\n"@
        },
{
    if settings.features.public_browse && settings.discovery.robots_index {
        "User-agent: *\nAllow: /browse\n"
    } else {
        "User-agent: *\nDisallow: /\n"
    }
}

pub open spec fn bool_text(b: bool) -> Seq<char> {
    if b {
        "true"@
    } else {
        "false"@
    }
}

/// The readiness answer: 200 when the database and storage are healthy, 503
/// otherwise, with the state of each.
pub fn readyz(database: bool, storage: bool) -> (r: (u16, String))
    ensures
        r.0 == if database && storage {
            200u16
        } else {
            503u16
        },
        r.1@ == "database="@ + bool_text(database) + "\nstorage="@ + bool_text(storage) + "\n"@,
{
    let mut s = "database=".to_owned();
    crate::text::append_str(&mut s, if database { "true" } else { "false" });
    crate::text::append_str(&mut s, "\nstorage=");
    crate::text::append_str(&mut s, if storage { "true" } else { "false" });
    crate::text::append_str(&mut s, "\n");
    (if database && storage { 200 } else { 503 }, s)
}

/// The bearer token of an `Authorization` header.
pub open spec fn bearer_of(authorization: Option<Seq<char>>) -> Option<Seq<char>> {
    match authorization {
        Some(a) => if a.len() >= 7 && a.take(7) == "Bearer "@ {
            Some(a.skip(7))
        } else {
            None
        },
        None => None,
    }
}

/// The token after `Bearer ` in an `Authorization` header.
pub fn bearer_token(authorization: Option<&str>) -> (r: Option<String>)
    ensures
        opt_view(r) == bearer_of(opt_str_view(authorization)),
{
    let a = match authorization {
        Some(a) => a,
        None => return None,
    };
    let cs = chars_of(a);
    let prefix = chars_of("Bearer ");
    proof {
        reveal_strlit("Bearer ");
    }
    if cs.len() < 7 {
        return None;
    }
    let mut i: usize = 0;
    while i < 7
        invariant
            i <= 7 <= cs@.len(),
            prefix@ == "Bearer "@,
            prefix@.len() == 7,
            cs@ == a@,
            opt_str_view(authorization) == Some(a@),
            forall|k: int| 0 <= k < i ==> cs@[k] == prefix@[k],
        decreases 7 - i,
    {
        if cs[i] != prefix[i] {
            assert(cs@.take(7)[i as int] != "Bearer "@[i as int]);
            assert(a@.take(7) != "Bearer "@);
            assert(bearer_of(opt_str_view(authorization)) is None);
            return None;
        }
        i += 1;
    }
    assert(cs@.take(7) =~= "Bearer "@);
    Some(crate::text::string_from(&cs, 7, cs.len()))
}

/// Who may read the metrics. `is_admin` says whether the request comes from
/// an administrator; `client_ip` is the address the access check uses.
pub open spec fn spec_metrics_access(
    settings: RuntimeSettings,
    is_admin: bool,
    authorization: Option<Seq<char>>,
    client_ip: Option<IpValue>,
) -> Result<(), WebError> {
    if !settings.metrics.enabled {
        Err(WebError::NotFound)
    } else {
        match settings.metrics.access {
            MetricsAccessMode::Public => Ok(()),
            MetricsAccessMode::Admin => if is_admin {
                Ok(())
            } else {
                Err(WebError::Forbidden)
            },
            MetricsAccessMode::Token => match settings.metrics.bearer_token {
                Some(t) => if t@.len() > 0 && bearer_of(authorization) == Some(t@) {
                    Ok(())
                } else {
                    Err(WebError::Forbidden)
                },
                None => Err(WebError::Forbidden),
            },
            MetricsAccessMode::Loopback => if client_ip matches Some(ip) && spec_is_loopback(ip) {
                Ok(())
            } else {
                Err(WebError::Forbidden)
            },
        }
    }
}

/// Disabled metrics are not found; otherwise the access mode decides:
/// anyone, administrators, holders of the configured bearer token, or
/// clients on a loopback address.
pub fn metrics_access(
    settings: &RuntimeSettings,
    is_admin: bool,
    authorization: Option<&str>,
    client_ip: Option<IpValue>,
) -> (r: Result<(), WebError>)
    ensures
        match spec_metrics_access(*settings, is_admin, opt_str_view(authorization), client_ip) {
            Ok(()) => r is Ok,
            Err(WebError::NotFound) => r matches Err(WebError::NotFound),
            Err(_) => r matches Err(WebError::Forbidden),
        },
{
    if !settings.metrics.enabled {
        return Err(WebError::NotFound);
    }
    match settings.metrics.access {
        MetricsAccessMode::Public => Ok(()),
        MetricsAccessMode::Admin => if is_admin {
            Ok(())
        } else {
            Err(WebError::Forbidden)
        },
        MetricsAccessMode::Token => {
            let expected = match &settings.metrics.bearer_token {
                Some(t) => t,
                None => return Err(WebError::Forbidden),
            };
            if expected.as_str().is_empty() {
                return Err(WebError::Forbidden);
            }
            match bearer_token(authorization) {
                Some(p) => if str_eq(p.as_str(), expected.as_str()) {
                    Ok(())
                } else {
                    Err(WebError::Forbidden)
                },
                None => Err(WebError::Forbidden),
            }
        },
        MetricsAccessMode::Loopback => match client_ip {
            Some(ip) => if is_loopback(ip) {
                Ok(())
            } else {
                Err(WebError::Forbidden)
            },
            None => Err(WebError::Forbidden),
        },
    }
}

/// Whether `s` holds `..` somewhere.
pub open spec fn has_dot_dot(s: Seq<char>) -> bool {
    exists|i: int| 0 <= i < s.len() - 1 && #[trigger] s[i] == '.' && s[i + 1] == '.'
}

/// A static asset path may not climb out of the asset directory or be absolute.
pub fn check_static_path(path: &str) -> (r: Result<(), WebError>)
    ensures
        (has_dot_dot(path@) || (path@.len() > 0 && path@[0] == '/')) ==> r matches Err(
            WebError::NotFound,
        ),
        !(has_dot_dot(path@) || (path@.len() > 0 && path@[0] == '/')) ==> r is Ok,
{
    let cs = chars_of(path);
    if cs.len() > 0 && cs[0] == '/' {
        return Err(WebError::NotFound);
    }
    let mut i: usize = 0;
    while i < cs.len()
        invariant
            i <= cs.len(),
            cs@ == path@,
            forall|k: int| 0 <= k < i && k < cs@.len() - 1 ==> !(#[trigger] cs@[k] == '.' && cs@[k + 1] == '.'),
        decreases cs.len() - i,
    {
        if i + 1 < cs.len() && cs[i] == '.' && cs[i + 1] == '.' {
            return Err(WebError::NotFound);
        }
        i += 1;
    }
    Ok(())
}

/// The content type of an asset read from the asset directory: what its name
/// suggests, else the generic binary type.
pub fn disk_asset_content_type(path: &str) -> (r: String)
    ensures
        r@ == crate::upload::spec_guess_or_octet(path@),
{
    guessed_mime_or_octet(path)
}

/// The assets built into the server, by path, with their content types.
pub open spec fn spec_builtin_asset(path: Seq<char>) -> Option<Seq<char>> {
    if path == "midden.css"@ {
        Some("text/css; charset=utf-8"@)
    } else if path == "midden.js"@ || path == "vendor/htmx.min.js"@ || path
        == "vendor/alpine.min.js"@ {
        Some("application/javascript; charset=utf-8"@)
    } else {
        None
    }
}

pub fn builtin_asset_content_type(path: &str) -> (r: Option<&'static str>)
    ensures
        opt_str_view(r) == spec_builtin_asset(path@),
{
    if str_eq(path, "midden.css") {
        Some("text/css; charset=utf-8")
    } else if str_eq(path, "midden.js") || str_eq(path, "vendor/htmx.min.js") || str_eq(
        path,
        "vendor/alpine.min.js",
    ) {
        Some("application/javascript; charset=utf-8")
    } else {
        None
    }
}

} // verus!
