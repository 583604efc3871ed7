//! How stored files are delivered: their URLs, the isolated file origin,
//! signed internal links, and the headers of a file response.
use vstd::prelude::*;
use vstd::utf8::encode_utf8;
use crate::crypto::{
    base64_url_nopad, encode_base64_url_nopad, is_base64_url_char, sha256, sha256_digest,
};
use crate::model::WebError;
use crate::net::{parse_url, parsed_url};
use crate::numbers::{i64_to_text, int_text, nat_digits, parse_u64, spec_parse_u64, u64_to_text};
use crate::settings::{
    ContentDispositionMode, ContentPolicy, DeliveryConfig, RiskyMimeMode, SecurityConfig,
};
use crate::text::{
    append_str, ascii_lower, chars_of, eq_ignore_ascii_case, eq_ignore_case, opt_str_view,
    opt_view, split, split_all, str_eq, string_from, strings_view, to_ascii_lowercase, trim,
    trim_bounds,
};

verus! {

/// Who may cache a response.
#[derive(Clone, Copy, Debug, PartialEq, Eq, Structural)]
pub enum CacheScope {
    Public,
    Private,
}

pub open spec fn spec_cache_control(seconds: u64, scope: CacheScope) -> Seq<char> {
    match scope {
        CacheScope::Private => "private, no-store"@,
        CacheScope::Public => if seconds == 0 {
            "no-store"@
        } else {
            "public, max-age="@ + nat_digits(seconds as nat)
        },
    }
}

/// The `Cache-Control` value of a response.
pub fn cache_control_value(seconds: u64, scope: CacheScope) -> (r: String)
    ensures
        r@ == spec_cache_control(seconds, scope),
{
    match scope {
        CacheScope::Private => "private, no-store".to_owned(),
        CacheScope::Public => {
            if seconds == 0 {
                "no-store".to_owned()
            } else {
                let mut s = "public, max-age=".to_owned();
                let digits = u64_to_text(seconds);
                append_str(&mut s, digits.as_str());
                s
            }
        },
    }
}

/// `s` without the `c` characters at its end.
pub open spec fn trim_end_char(s: Seq<char>, c: char) -> Seq<char>
    decreases s.len(),
{
    if s.len() > 0 && s.last() == c {
        trim_end_char(s.drop_last(), c)
    } else {
        s
    }
}

fn trim_end_matches(s: &str, c: char) -> (r: String)
    ensures
        r@ == trim_end_char(s@, c),
{
    let cs = chars_of(s);
    let mut b = cs.len();
    assert(cs@.subrange(0, b as int) == cs@);
    while b > 0 && cs[b - 1] == c
        invariant
            b <= cs.len(),
            cs@ == s@,
            trim_end_char(s@, c) == trim_end_char(cs@.subrange(0, b as int), c),
        decreases b,
    {
        assert(cs@.subrange(0, b as int).drop_last() == cs@.subrange(0, b - 1));
        b -= 1;
    }
    string_from(&cs, 0, b)
}

/// The public base URL without trailing slashes.
pub fn app_base_url(public_base_url: &str) -> (r: String)
    ensures
        r@ == trim_end_char(public_base_url@, '/'),
{
    trim_end_matches(public_base_url, '/')
}

/// The base URL of file links: the configured file base URL when it is not
/// blank, else the public base URL; without trailing slashes.
pub open spec fn spec_file_base_url(delivery: DeliveryConfig, public_base_url: Seq<char>) -> Seq<char> {
    match opt_view(delivery.public_file_base_url) {
        Some(u) => if trim(u).len() > 0 {
            trim_end_char(u, '/')
        } else {
            trim_end_char(public_base_url, '/')
        },
        None => trim_end_char(public_base_url, '/'),
    }
}

pub fn file_base_url(delivery: &DeliveryConfig, public_base_url: &str) -> (r: String)
    ensures
        r@ == spec_file_base_url(*delivery, public_base_url@),
{
    match &delivery.public_file_base_url {
        Some(u) => {
            if !crate::text::is_blank(u.as_str()) {
                trim_end_matches(u.as_str(), '/')
            } else {
                trim_end_matches(public_base_url, '/')
            }
        },
        None => trim_end_matches(public_base_url, '/'),
    }
}

/// The link to a file's page: its slug (the public id with the file's
/// extension) under the file base URL.
pub fn file_url(delivery: &DeliveryConfig, public_base_url: &str, slug: &str) -> (r: String)
    ensures
        r@ == spec_file_base_url(*delivery, public_base_url@) + "/"@ + slug@,
{
    let mut s = file_base_url(delivery, public_base_url);
    append_str(&mut s, "/");
    append_str(&mut s, slug);
    s
}

/// The link to the raw bytes of a file.
pub fn raw_file_url(delivery: &DeliveryConfig, public_base_url: &str, public_id: &str) -> (r: String)
    ensures
        r@ == spec_file_base_url(*delivery, public_base_url@) + "/files/"@ + public_id@ + "/raw"@,
{
    let mut s = file_base_url(delivery, public_base_url);
    append_str(&mut s, "/files/");
    append_str(&mut s, public_id);
    append_str(&mut s, "/raw");
    s
}

/// The link to the thumbnail of a file.
pub fn thumbnail_file_url(delivery: &DeliveryConfig, public_base_url: &str, public_id: &str) -> (r: String)
    ensures
        r@ == spec_file_base_url(*delivery, public_base_url@) + "/files/"@ + public_id@
            + "/thumbnail"@,
{
    let mut s = file_base_url(delivery, public_base_url);
    append_str(&mut s, "/files/");
    append_str(&mut s, public_id);
    append_str(&mut s, "/thumbnail");
    s
}

/// The host (and explicit port) of the configured file base URL, lower case.
pub open spec fn spec_configured_file_host(delivery: DeliveryConfig) -> Option<Seq<char>> {
    match opt_view(delivery.public_file_base_url) {
        None => None,
        Some(u) => match parsed_url(u) {
            Err(_) => None,
            Ok(p) => match p.1 {
                None => None,
                Some(h) => match p.3 {
                    Some(port) => Some(ascii_lower(h) + seq![':'] + nat_digits(port as nat)),
                    None => Some(ascii_lower(h)),
                },
            },
        },
    }
}

pub fn configured_file_host(delivery: &DeliveryConfig) -> (r: Option<String>)
    ensures
        opt_view(r) == spec_configured_file_host(*delivery),
{
    let url = match &delivery.public_file_base_url {
        Some(u) => u,
        None => return None,
    };
    let parts = match parse_url(url.as_str()) {
        Ok(p) => p,
        Err(_) => return None,
    };
    let host = match &parts.host_text {
        Some(h) => to_ascii_lowercase(h.as_str()),
        None => return None,
    };
    match parts.port {
        Some(port) => {
            let mut s = host;
            append_str(&mut s, ":");
            let digits = u64_to_text(port as u64);
            append_str(&mut s, digits.as_str());
            proof {
                reveal_strlit(":");
            }
            Some(s)
        },
        None => Some(host),
    }
}

/// The `Host` header of a request, trimmed, without trailing dots, lower case;
/// `None` when blank.
pub open spec fn spec_request_host(host_header: Option<Seq<char>>) -> Option<Seq<char>> {
    match host_header {
        None => None,
        Some(v) => {
            let h = ascii_lower(crate::net::trim_end_dots(trim(v)));
            if h.len() > 0 {
                Some(h)
            } else {
                None
            }
        },
    }
}

pub fn request_host(host_header: Option<&str>) -> (r: Option<String>)
    ensures
        opt_view(r) == spec_request_host(opt_str_view(host_header)),
{
    let v = match host_header {
        Some(v) => v,
        None => return None,
    };
    let cs = chars_of(v);
    let (a, b) = trim_bounds(&cs, 0, cs.len());
    assert(cs@.subrange(0, cs@.len() as int) == cs@);
    let mut e = b;
    while e > a && cs[e - 1] == '.'
        invariant
            a <= e <= b <= cs.len(),
            crate::net::trim_end_dots(cs@.subrange(a as int, b as int)) == crate::net::trim_end_dots(
                cs@.subrange(a as int, e as int),
            ),
        decreases e - a,
    {
        assert(cs@.subrange(a as int, e as int).drop_last() == cs@.subrange(a as int, e - 1));
        e -= 1;
    }
    let t = string_from(&cs, a, e);
    let low = to_ascii_lowercase(t.as_str());
    if low.as_str().is_empty() {
        None
    } else {
        Some(low)
    }
}

/// Whether a request came to the isolated file origin: isolation is on and
/// the request's host is the configured file host.
pub open spec fn spec_is_isolated_file_host(delivery: DeliveryConfig, host_header: Option<Seq<char>>) -> bool {
    delivery.isolated_file_origin && spec_configured_file_host(delivery) is Some
        && spec_request_host(host_header) is Some && spec_configured_file_host(delivery)
        == spec_request_host(host_header)
}

pub fn is_isolated_file_host(delivery: &DeliveryConfig, host_header: Option<&str>) -> (b: bool)
    ensures
        b == spec_is_isolated_file_host(*delivery, opt_str_view(host_header)),
{
    if !delivery.isolated_file_origin {
        return false;
    }
    let configured = match configured_file_host(delivery) {
        Some(c) => c,
        None => return false,
    };
    let request = match request_host(host_header) {
        Some(r) => r,
        None => return false,
    };
    crate::text::str_eq(configured.as_str(), request.as_str())
}

/// The bytes signed for an internal file link: secret, a zero byte, the public
/// id, a zero byte, and the expiry in decimal.
pub open spec fn signed_message(secret: Seq<char>, public_id: Seq<char>, expires: int) -> Seq<u8> {
    encode_utf8(secret) + seq![0u8] + encode_utf8(public_id) + seq![0u8] + encode_utf8(
        int_text(expires),
    )
}

pub open spec fn spec_sign_internal_file_url(secret: Seq<char>, public_id: Seq<char>, expires: int) -> Seq<char> {
    base64_url_nopad(sha256(signed_message(secret, public_id, expires)))
}

fn push_bytes(out: &mut Vec<u8>, b: &[u8])
    ensures
        final(out)@ == old(out)@ + b@,
{
    let mut i: usize = 0;
    let ghost start = out@;
    while i < b.len()
        invariant
            i <= b.len(),
            out@ == start + b@.take(i as int),
        decreases b.len() - i,
    {
        out.push(b[i]);
        assert(b@.take(i + 1) == b@.take(i as int).push(b@[i as int]));
        i += 1;
    }
    assert(b@.take(b.len() as int) == b@);
}

/// The signature of an internal file link: URL-safe base64 of the SHA-256 of
/// the signed message.
pub fn sign_internal_file_url(secret: &str, public_id: &str, expires: i64) -> (r: String)
    ensures
        r@ == spec_sign_internal_file_url(secret@, public_id@, expires as int),
        r@.len() == 43,
        forall|i: int| 0 <= i < r@.len() ==> is_base64_url_char(#[trigger] r@[i]),
{
    let mut msg: Vec<u8> = Vec::new();
    push_bytes(&mut msg, secret.as_bytes());
    msg.push(0);
    push_bytes(&mut msg, public_id.as_bytes());
    msg.push(0);
    let text = i64_to_text(expires);
    push_bytes(&mut msg, text.as_str().as_bytes());
    assert(msg@ =~= signed_message(secret@, public_id@, expires as int));
    let digest = sha256_digest(msg.as_slice());
    proof {
        crate::crypto::lemma_base64_url_shape(digest@);
    }
    encode_base64_url_nopad(digest.as_slice())
}

/// A signed internal link to a file's raw bytes, when signed links are on and
/// a secret is set: it expires `max(ttl, 1)` seconds after `now`.
pub open spec fn spec_signed_internal_raw_url(
    delivery: DeliveryConfig,
    public_base_url: Seq<char>,
    public_id: Seq<char>,
    now: int,
) -> Option<Seq<char>> {
    match opt_view(delivery.internal_url_secret) {
        Some(secret) => if delivery.signed_internal_urls && secret.len() > 0 {
            let ttl = if delivery.internal_url_ttl_seconds >= 1 {
                delivery.internal_url_ttl_seconds as int
            } else {
                1
            };
            let expires = now + ttl;
            Some(
                trim_end_char(public_base_url, '/') + "/internal/files/"@ + public_id
                    + "/raw?expires="@ + int_text(expires) + "&signature="@
                    + spec_sign_internal_file_url(secret, public_id, expires),
            )
        } else {
            None
        },
        None => None,
    }
}

pub fn signed_internal_raw_url(
    delivery: &DeliveryConfig,
    public_base_url: &str,
    public_id: &str,
    now: i64,
) -> (r: Option<String>)
    requires
        now as int + (if delivery.internal_url_ttl_seconds >= 1 {
            delivery.internal_url_ttl_seconds as int
        } else {
            1
        }) <= i64::MAX,
    ensures
        opt_view(r) == spec_signed_internal_raw_url(*delivery, public_base_url@, public_id@, now as int),
{
    if !delivery.signed_internal_urls {
        return None;
    }
    let secret = match &delivery.internal_url_secret {
        Some(s) => s,
        None => return None,
    };
    if secret.as_str().is_empty() {
        return None;
    }
    let ttl: i64 = if delivery.internal_url_ttl_seconds >= 1 {
        delivery.internal_url_ttl_seconds
    } else {
        1
    };
    let expires = now + ttl;
    let signature = sign_internal_file_url(secret.as_str(), public_id, expires);
    let mut s = app_base_url(public_base_url);
    append_str(&mut s, "/internal/files/");
    append_str(&mut s, public_id);
    append_str(&mut s, "/raw?expires=");
    let et = i64_to_text(expires);
    append_str(&mut s, et.as_str());
    append_str(&mut s, "&signature=");
    append_str(&mut s, signature.as_str());
    Some(s)
}

/// How a request for a signed internal link fares.
#[derive(Clone, Copy, Debug, PartialEq, Eq)]
pub enum InternalAccess {
    Admitted,
    /// Signed links are off or have no secret.
    NotFound,
    /// The link expired or its signature is wrong.
    Forbidden,
}

pub open spec fn spec_internal_access(
    delivery: DeliveryConfig,
    public_id: Seq<char>,
    expires: int,
    signature: Seq<char>,
    now: int,
) -> InternalAccess {
    match opt_view(delivery.internal_url_secret) {
        Some(secret) => if !delivery.signed_internal_urls || secret.len() == 0 {
            InternalAccess::NotFound
        } else if expires < now {
            InternalAccess::Forbidden
        } else if encode_utf8(spec_sign_internal_file_url(secret, public_id, expires))
            != encode_utf8(signature) {
            InternalAccess::Forbidden
        } else {
            InternalAccess::Admitted
        },
        None => InternalAccess::NotFound,
    }
}

/// Checks a request for a signed internal link against the delivery settings
/// at time `now`; the signature is compared without an early exit.
pub fn verify_internal_file_request(
    delivery: &DeliveryConfig,
    public_id: &str,
    expires: i64,
    signature: &str,
    now: i64,
) -> (r: Result<(), WebError>)
    ensures
        match spec_internal_access(*delivery, public_id@, expires as int, signature@, now as int) {
            InternalAccess::Admitted => r is Ok,
            InternalAccess::NotFound => r matches Err(WebError::NotFound),
            InternalAccess::Forbidden => r matches Err(WebError::Forbidden),
        },
{
    if !delivery.signed_internal_urls {
        return Err(WebError::NotFound);
    }
    let secret = match &delivery.internal_url_secret {
        Some(s) => s,
        None => return Err(WebError::NotFound),
    };
    if secret.as_str().is_empty() {
        return Err(WebError::NotFound);
    }
    if expires < now {
        return Err(WebError::Forbidden);
    }
    let expected = sign_internal_file_url(secret.as_str(), public_id, expires);
    if !crate::crypto::constant_time_eq(expected.as_str().as_bytes(), signature.as_bytes()) {
        return Err(WebError::Forbidden);
    }
    Ok(())
}

/// A signed link works until it expires: the signature that signing gives an
/// id and an expiry is admitted at any time up to that expiry, and refused
/// after it.
pub proof fn law_signed_links_verify_until_expiry(
    delivery: DeliveryConfig,
    public_id: Seq<char>,
    expires: int,
    now: int,
)
    requires
        delivery.signed_internal_urls,
        delivery.internal_url_secret is Some,
        delivery.internal_url_secret->0@.len() > 0,
    ensures
        now <= expires ==> spec_internal_access(
            delivery,
            public_id,
            expires,
            spec_sign_internal_file_url(delivery.internal_url_secret->0@, public_id, expires),
            now,
        ) == InternalAccess::Admitted,
        now > expires ==> spec_internal_access(
            delivery,
            public_id,
            expires,
            spec_sign_internal_file_url(delivery.internal_url_secret->0@, public_id, expires),
            now,
        ) == InternalAccess::Forbidden,
{
}

/// The link that `signed_internal_raw_url` gives at time `now` names the
/// expiry `now + max(ttl, 1)` and the signature for it, so it is admitted
/// until then.
pub proof fn law_issued_links_are_admitted(
    delivery: DeliveryConfig,
    public_base_url: Seq<char>,
    public_id: Seq<char>,
    now: int,
    later: int,
)
    requires
        spec_signed_internal_raw_url(delivery, public_base_url, public_id, now) is Some,
        now <= later <= now + (if delivery.internal_url_ttl_seconds >= 1 {
            delivery.internal_url_ttl_seconds as int
        } else {
            1
        }),
    ensures
        ({
            let secret = delivery.internal_url_secret->0@;
            let expires = now + (if delivery.internal_url_ttl_seconds >= 1 {
                delivery.internal_url_ttl_seconds as int
            } else {
                1
            });
            &&& spec_signed_internal_raw_url(delivery, public_base_url, public_id, now)
                == Some(
                trim_end_char(public_base_url, '/') + "/internal/files/"@ + public_id
                    + "/raw?expires="@ + int_text(expires) + "&signature="@
                    + spec_sign_internal_file_url(secret, public_id, expires),
            )
            &&& spec_internal_access(
                delivery,
                public_id,
                expires,
                spec_sign_internal_file_url(secret, public_id, expires),
                later,
            ) == InternalAccess::Admitted
        }),
{
}

/// Whether a file route is served on this host: with an isolated file origin,
/// files are served from the file host alone.
pub fn check_file_origin(delivery: &DeliveryConfig, host_header: Option<&str>) -> (r: Result<
    (),
    WebError,
>)
    ensures
        (delivery.isolated_file_origin && !spec_is_isolated_file_host(
            *delivery,
            opt_str_view(host_header),
        )) ==> r matches Err(WebError::NotFound),
        !(delivery.isolated_file_origin && !spec_is_isolated_file_host(
            *delivery,
            opt_str_view(host_header),
        )) ==> r is Ok,
{
    if delivery.isolated_file_origin && !is_isolated_file_host(delivery, host_header) {
        Err(WebError::NotFound)
    } else {
        Ok(())
    }
}

/// Whether a content type is one that must not be shown inline as is.
pub open spec fn spec_is_risky_mime(policy: ContentPolicy, content_type: Seq<char>) -> bool {
    exists|i: int|
        0 <= i < policy.forced_attachment_mime_types@.len() && eq_ignore_case(
            #[trigger] strings_view(policy.forced_attachment_mime_types@)[i],
            content_type,
        )
}

pub fn is_risky_mime(policy: &ContentPolicy, content_type: &str) -> (b: bool)
    ensures
        b == spec_is_risky_mime(*policy, content_type@),
{
    let v = &policy.forced_attachment_mime_types;
    let mut i: usize = 0;
    while i < v.len()
        invariant
            i <= v.len(),
            v == policy.forced_attachment_mime_types,
            forall|k: int| 0 <= k < i ==> !eq_ignore_case(#[trigger] strings_view(v@)[k], content_type@),
        decreases v.len() - i,
    {
        if eq_ignore_ascii_case(v[i].as_str(), content_type) {
            assert(strings_view(v@)[i as int] == v@[i as int]@);
            return true;
        }
        i += 1;
    }
    false
}

pub open spec fn spec_disposition_kind(security: SecurityConfig, risky: bool, isolated: bool) -> Seq<char> {
    if risky {
        match security.content_policy.risky_mime_mode {
            RiskyMimeMode::Attachment => "attachment"@,
            RiskyMimeMode::InlineOnIsolatedOrigin => if isolated {
                "inline"@
            } else {
                "attachment"@
            },
            RiskyMimeMode::Plaintext => "inline"@,
        }
    } else {
        match security.content_disposition {
            ContentDispositionMode::Inline => "inline"@,
            ContentDispositionMode::Attachment => "attachment"@,
        }
    }
}

/// Whether a file is shown inline or downloaded: risky types follow the risky
/// MIME mode, inline only on the isolated origin where that mode says so;
/// other types follow the configured content disposition.
pub fn file_disposition_kind(security: &SecurityConfig, risky_type: bool, isolated_file_host: bool) -> (r: &'static str)
    ensures
        r@ == spec_disposition_kind(*security, risky_type, isolated_file_host),
{
    proof {
        reveal_strlit("attachment");
        reveal_strlit("inline");
    }
    if risky_type {
        return match security.content_policy.risky_mime_mode {
            RiskyMimeMode::Attachment => "attachment",
            RiskyMimeMode::InlineOnIsolatedOrigin => {
                if isolated_file_host {
                    "inline"
                } else {
                    "attachment"
                }
            },
            RiskyMimeMode::Plaintext => "inline",
        };
    }
    match security.content_disposition {
        ContentDispositionMode::Inline => "inline",
        ContentDispositionMode::Attachment => "attachment",
    }
}

/// The extra headers of a file response: no sniffing, no referrer and a
/// cross-origin resource policy, and on the isolated origin a sandboxing
/// content security policy.
pub open spec fn spec_file_security_headers(isolated: bool) -> Seq<(Seq<char>, Seq<char>)> {
    let base = seq![
        ("x-content-type-options"@, "nosniff"@),
        ("referrer-policy"@, "no-referrer"@),
        ("cross-origin-resource-policy"@, "cross-origin"@),
    ];
    if isolated {
        base.push(
            (
                "content-security-policy"@,
                "default-src 'none'; sandbox; style-src 'unsafe-inline'; img-src 'self' data: blob:; media-src 'self' blob:; frame-ancestors 'none'"@,
            ),
        )
    } else {
        base
    }
}

pub open spec fn pairs_view(v: Seq<(&str, &str)>) -> Seq<(Seq<char>, Seq<char>)> {
    v.map_values(|p: (&str, &str)| (p.0@, p.1@))
}

pub fn file_security_headers(isolated_file_host: bool) -> (r: Vec<(&'static str, &'static str)>)
    ensures
        pairs_view(r@) == spec_file_security_headers(isolated_file_host),
{
    let mut v: Vec<(&'static str, &'static str)> = Vec::new();
    v.push(("x-content-type-options", "nosniff"));
    v.push(("referrer-policy", "no-referrer"));
    v.push(("cross-origin-resource-policy", "cross-origin"));
    if isolated_file_host {
        v.push(
            (
                "content-security-policy",
                "default-src 'none'; sandbox; style-src 'unsafe-inline'; img-src 'self' data: blob:; media-src 'self' blob:; frame-ancestors 'none'",
            ),
        );
    }
    assert(pairs_view(v@) =~= spec_file_security_headers(isolated_file_host));
    v
}

/// The single byte range a `Range` header asks for.
#[derive(Clone, Copy, Debug, PartialEq, Eq, Structural)]
pub enum RangeRequest {
    /// `bytes=start-end`, or `bytes=start-` when `end` is none.
    Span { start: u64, end: Option<u64> },
    /// `bytes=-n`: the last `n` bytes.
    Suffix(u64),
}

/// The range a `Range` header asks for: `bytes=`, then one range of decimal
/// numbers. Anything else (another unit, several ranges, a range that ends
/// before it starts) asks for no range, and the whole file is sent.
pub open spec fn spec_range_request(h: Seq<char>) -> Option<RangeRequest> {
    if h.len() < 6 || h.take(6) != "bytes="@ {
        None
    } else {
        let parts = split(h.skip(6), '-');
        if parts.len() != 2 {
            None
        } else if parts[0].len() == 0 {
            match spec_parse_u64(parts[1]) {
                Ok(n) => Some(RangeRequest::Suffix(n as u64)),
                Err(_) => None,
            }
        } else {
            match spec_parse_u64(parts[0]) {
                Err(_) => None,
                Ok(a) => if parts[1].len() == 0 {
                    Some(RangeRequest::Span { start: a as u64, end: None })
                } else {
                    match spec_parse_u64(parts[1]) {
                        Err(_) => None,
                        Ok(b) => if b < a {
                            None
                        } else {
                            Some(RangeRequest::Span { start: a as u64, end: Some(b as u64) })
                        },
                    }
                },
            }
        }
    }
}

/// How a file of `size` bytes answers a range.
#[derive(Clone, Copy, Debug, PartialEq, Eq, Structural)]
pub enum RangeAnswer {
    /// The whole file.
    Full,
    /// The bytes from `start` to `end`, both included.
    Partial { start: u64, end: u64 },
    /// No byte of the file is in the range.
    Unsatisfiable,
}

/// A range that starts past the end of the file, or an empty suffix, cannot
/// be served; an end past the file is cut to its last byte.
pub open spec fn spec_range_answer(range: Option<Seq<char>>, size: u64) -> RangeAnswer {
    match range {
        None => RangeAnswer::Full,
        Some(h) => match spec_range_request(h) {
            None => RangeAnswer::Full,
            Some(RangeRequest::Span { start, end }) => if start >= size {
                RangeAnswer::Unsatisfiable
            } else {
                RangeAnswer::Partial {
                    start,
                    end: match end {
                        Some(e) => if e < size {
                            e
                        } else {
                            (size - 1) as u64
                        },
                        None => (size - 1) as u64,
                    },
                }
            },
            Some(RangeRequest::Suffix(n)) => if n == 0 || size == 0 {
                RangeAnswer::Unsatisfiable
            } else {
                RangeAnswer::Partial {
                    start: if n < size {
                        (size - n) as u64
                    } else {
                        0
                    },
                    end: (size - 1) as u64,
                }
            },
        },
    }
}

/// Reads the range of a `Range` header.
pub fn range_request(h: &str) -> (r: Option<RangeRequest>)
    ensures
        r == spec_range_request(h@),
        r matches Some(RangeRequest::Span { start, end: Some(e) }) ==> start <= e,
{
    proof {
        reveal_strlit("bytes=");
    }
    let cs = chars_of(h);
    if cs.len() < 6 {
        return None;
    }
    let unit = string_from(&cs, 0, 6);
    assert(cs@.subrange(0, 6) == h@.take(6));
    if !str_eq(unit.as_str(), "bytes=") {
        return None;
    }
    let rest = string_from(&cs, 6, cs.len());
    assert(cs@.subrange(6, cs.len() as int) == h@.skip(6));
    let parts = split_all(rest.as_str(), '-');
    if parts.len() != 2 {
        return None;
    }
    assert(parts[0]@ == split(h@.skip(6), '-')[0]);
    assert(parts[1]@ == split(h@.skip(6), '-')[1]);
    if parts[0].as_str().is_empty() {
        return match parse_u64(parts[1].as_str()) {
            Ok(n) => Some(RangeRequest::Suffix(n)),
            Err(_) => None,
        };
    }
    let a = match parse_u64(parts[0].as_str()) {
        Ok(a) => a,
        Err(_) => return None,
    };
    if parts[1].as_str().is_empty() {
        return Some(RangeRequest::Span { start: a, end: None });
    }
    match parse_u64(parts[1].as_str()) {
        Err(_) => None,
        Ok(b) => if b < a {
            None
        } else {
            Some(RangeRequest::Span { start: a, end: Some(b) })
        },
    }
}

/// How a file of `size` bytes answers an optional `Range` header.
pub fn range_answer(range: Option<&str>, size: u64) -> (r: RangeAnswer)
    ensures
        r == spec_range_answer(opt_str_view(range), size),
        r matches RangeAnswer::Partial { start, end } ==> start <= end < size,
{
    let h = match range {
        None => return RangeAnswer::Full,
        Some(h) => h,
    };
    match range_request(h) {
        None => RangeAnswer::Full,
        Some(RangeRequest::Span { start, end }) => if start >= size {
            RangeAnswer::Unsatisfiable
        } else {
            let last = size - 1;
            let e = match end {
                Some(e) => if e < size {
                    e
                } else {
                    last
                },
                None => last,
            };
            RangeAnswer::Partial { start, end: e }
        },
        Some(RangeRequest::Suffix(n)) => if n == 0 || size == 0 {
            RangeAnswer::Unsatisfiable
        } else {
            let start = if n < size {
                size - n
            } else {
                0
            };
            RangeAnswer::Partial { start, end: size - 1 }
        },
    }
}

/// What a file response carries besides its body.
#[derive(Debug)]
pub struct FileResponsePlan {
    /// 200 for the whole file, 206 for a range, 416 for a range outside it.
    pub status: u16,
    /// Always `bytes`: ranges of bytes are served.
    pub accept_ranges: &'static str,
    /// The `Content-Range` of a range answer.
    pub content_range: Option<String>,
    /// Where in the file the body starts; it is `content_length` bytes long.
    pub body_offset: u64,
    pub content_type: String,
    pub content_length: u64,
    pub content_disposition: String,
    pub security_headers: Vec<(&'static str, &'static str)>,
    pub cache_control: String,
}

/// `s` without double quotes.
pub open spec fn without_quotes(s: Seq<char>) -> Seq<char>
    decreases s.len(),
{
    if s.len() == 0 {
        s
    } else if s.last() == '"' {
        without_quotes(s.drop_last())
    } else {
        without_quotes(s.drop_last()).push(s.last())
    }
}

fn remove_quotes(s: &str) -> (r: String)
    ensures
        r@ == without_quotes(s@),
{
    let cs = chars_of(s);
    let mut out: Vec<char> = Vec::new();
    let mut i: usize = 0;
    while i < cs.len()
        invariant
            i <= cs.len(),
            cs@ == s@,
            out@ == without_quotes(cs@.take(i as int)),
        decreases cs.len() - i,
    {
        assert(cs@.take(i + 1).drop_last() == cs@.take(i as int));
        if cs[i] != '"' {
            out.push(cs[i]);
        }
        i += 1;
    }
    assert(cs@.take(cs.len() as int) == cs@);
    crate::text::string_of(&out)
}

/// The headers of a file response. A risky type is sent as UTF-8 plain text
/// when the risky MIME mode says so; the length is never negative; the file
/// name is the original one (or the public id) without double quotes; the
/// security headers come on plain-text and isolated-origin responses; private
/// files are not cached publicly. A `Range` header is answered with the part
/// of the file it asks for, or refused when no byte of the file is in it.
pub open spec fn spec_file_response_ok(
    security: SecurityConfig,
    delivery: DeliveryConfig,
    stored_content_type: Option<Seq<char>>,
    size_bytes: i64,
    original_filename: Option<Seq<char>>,
    public_id: Seq<char>,
    visibility: Seq<char>,
    isolated: bool,
    range: Option<Seq<char>>,
    plan: FileResponsePlan,
) -> bool {
    let stored = match stored_content_type {
        Some(c) => c,
        None => "application/octet-stream"@,
    };
    let risky = spec_is_risky_mime(security.content_policy, stored);
    let plaintext = risky && security.content_policy.risky_mime_mode == RiskyMimeMode::Plaintext;
    let name = match original_filename {
        Some(n) => n,
        None => public_id,
    };
    &&& plan.content_type@ == if plaintext {
        "text/plain; charset=utf-8"@
    } else {
        stored
    }
    &&& plan.accept_ranges@ == "bytes"@
    &&& spec_range_ok(if size_bytes >= 0 {
        size_bytes as u64
    } else {
        0
    }, spec_range_answer(range, if size_bytes >= 0 {
        size_bytes as u64
    } else {
        0
    }), plan)
    &&& plan.content_disposition@ == spec_disposition_kind(security, risky, isolated)
        + "; filename=\""@ + without_quotes(name) + "\""@
    &&& pairs_view(plan.security_headers@) == if plaintext || isolated {
        spec_file_security_headers(isolated)
    } else {
        Seq::empty()
    }
    &&& plan.cache_control@ == spec_cache_control(
        delivery.public_cache_seconds,
        if visibility == "private"@ {
            CacheScope::Private
        } else {
            CacheScope::Public
        },
    )
}

/// The status, `Content-Range`, length and start of the body that answer a
/// range of a file of `size` bytes.
pub open spec fn spec_range_ok(size: u64, answer: RangeAnswer, plan: FileResponsePlan) -> bool {
    match answer {
        RangeAnswer::Full => {
            &&& plan.status == 200
            &&& plan.content_range is None
            &&& plan.content_length == size
            &&& plan.body_offset == 0
        },
        RangeAnswer::Partial { start, end } => {
            &&& plan.status == 206
            &&& opt_view(plan.content_range) == Some(
                "bytes "@ + nat_digits(start as nat) + "-"@ + nat_digits(end as nat) + "/"@
                    + nat_digits(size as nat),
            )
            &&& plan.content_length == end - start + 1
            &&& plan.body_offset == start
        },
        RangeAnswer::Unsatisfiable => {
            &&& plan.status == 416
            &&& opt_view(plan.content_range) == Some("bytes */"@ + nat_digits(size as nat))
            &&& plan.content_length == 0
            &&& plan.body_offset == 0
        },
    }
}

/// A private file's response is never stored by a cache, whatever the cache
/// settings and the file.
pub proof fn law_private_files_are_not_cached(
    security: SecurityConfig,
    delivery: DeliveryConfig,
    stored_content_type: Option<Seq<char>>,
    size_bytes: i64,
    original_filename: Option<Seq<char>>,
    public_id: Seq<char>,
    isolated: bool,
    range: Option<Seq<char>>,
    plan: FileResponsePlan,
)
    requires
        spec_file_response_ok(
            security,
            delivery,
            stored_content_type,
            size_bytes,
            original_filename,
            public_id,
            "private"@,
            isolated,
            range,
            plan,
        ),
    ensures
        plan.cache_control@ == "private, no-store"@,
{
}

pub fn file_response_plan(
    security: &SecurityConfig,
    delivery: &DeliveryConfig,
    stored_content_type: Option<&str>,
    size_bytes: i64,
    original_filename: Option<&str>,
    public_id: &str,
    visibility: &str,
    isolated_file_host: bool,
    range: Option<&str>,
) -> (r: FileResponsePlan)
    ensures
        spec_file_response_ok(
            *security,
            *delivery,
            opt_str_view(stored_content_type),
            size_bytes,
            opt_str_view(original_filename),
            public_id@,
            visibility@,
            isolated_file_host,
            opt_str_view(range),
            r,
        ),
{
    let stored: &str = match stored_content_type {
        Some(c) => c,
        None => "application/octet-stream",
    };
    let risky = is_risky_mime(&security.content_policy, stored);
    let plaintext = risky && security.content_policy.risky_mime_mode == RiskyMimeMode::Plaintext;
    let content_type = if plaintext {
        "text/plain; charset=utf-8".to_owned()
    } else {
        stored.to_owned()
    };
    let size: u64 = if size_bytes >= 0 {
        size_bytes as u64
    } else {
        0
    };
    let (status, content_range, content_length, body_offset) = match range_answer(range, size) {
        RangeAnswer::Full => (200u16, None, size, 0u64),
        RangeAnswer::Partial { start, end } => {
            let mut cr = "bytes ".to_owned();
            append_str(&mut cr, u64_to_text(start).as_str());
            append_str(&mut cr, "-");
            append_str(&mut cr, u64_to_text(end).as_str());
            append_str(&mut cr, "/");
            append_str(&mut cr, u64_to_text(size).as_str());
            (206u16, Some(cr), end - start + 1, start)
        },
        RangeAnswer::Unsatisfiable => {
            let mut cr = "bytes */".to_owned();
            append_str(&mut cr, u64_to_text(size).as_str());
            (416u16, Some(cr), 0u64, 0u64)
        },
    };
    let name: &str = match original_filename {
        Some(n) => n,
        None => public_id,
    };
    let filename = remove_quotes(name);
    let kind = file_disposition_kind(security, risky, isolated_file_host);
    let mut disposition = kind.to_owned();
    append_str(&mut disposition, "; filename=\"");
    append_str(&mut disposition, filename.as_str());
    append_str(&mut disposition, "\"");
    let security_headers = if plaintext || isolated_file_host {
        file_security_headers(isolated_file_host)
    } else {
        let v: Vec<(&'static str, &'static str)> = Vec::new();
        assert(pairs_view(v@) =~= Seq::<(Seq<char>, Seq<char>)>::empty());
        v
    };
    FileResponsePlan {
        status,
        accept_ranges: "bytes",
        content_range,
        body_offset,
        content_type,
        content_length,
        content_disposition: disposition,
        security_headers,
        cache_control: cache_control_value(
            delivery.public_cache_seconds,
            if crate::text::str_eq(visibility, "private") {
                CacheScope::Private
            } else {
                CacheScope::Public
            },
        ),
    }
}

/// Whether `s` holds `needle` somewhere.
pub open spec fn contains_text(s: Seq<char>, needle: Seq<char>) -> bool {
    exists|i: int| 0 <= i <= s.len() - needle.len() && #[trigger] s.subrange(i, i + needle.len()) == needle
}

fn find_text(s: &str, needle: &str) -> (b: bool)
    ensures
        b == contains_text(s@, needle@),
{
    let cs = chars_of(s);
    let ns = chars_of(needle);
    if ns.len() > cs.len() {
        return false;
    }
    let mut i: usize = 0;
    while i <= cs.len() - ns.len()
        invariant
            cs@ == s@,
            ns@ == needle@,
            ns.len() <= cs.len(),
            i <= cs.len() - ns.len() + 1,
            forall|k: int| 0 <= k < i ==> #[trigger] s@.subrange(k, k + needle@.len()) != needle@,
        decreases cs.len() - ns.len() + 1 - i,
    {
        let mut j: usize = 0;
        let mut same = true;
        while j < ns.len()
            invariant
                cs@ == s@,
                ns@ == needle@,
                i + ns.len() <= cs.len(),
                j <= ns.len(),
                same == forall|m: int| 0 <= m < j ==> cs@[i + m] == ns@[m],
            decreases ns.len() - j,
        {
            if cs[i + j] != ns[j] {
                same = false;
            }
            j += 1;
        }
        if same {
            assert(s@.subrange(i as int, i + needle@.len()) =~= needle@);
            return true;
        }
        assert(s@.subrange(i as int, i + needle@.len()) != needle@) by {
            let k = choose|m: int| 0 <= m < ns.len() && cs@[i + m] != ns@[m];
            assert(s@.subrange(i as int, i + needle@.len())[k] != needle@[k]);
        }
        i += 1;
    }
    false
}

/// Whether a request's `Accept` header asks for JSON.
pub fn wants_json(accept: Option<&str>) -> (b: bool)
    ensures
        b == (accept matches Some(a) && contains_text(a@, "application/json"@)),
{
    match accept {
        Some(a) => find_text(a, "application/json"),
        None => false,
    }
}

/// The page where an upload may be deleted.
pub fn delete_url(public_id: &str) -> (r: String)
    ensures
        r@ == "/delete/file/"@ + public_id@,
{
    let mut s = "/delete/file/".to_owned();
    append_str(&mut s, public_id);
    s
}

/// How a file's preview page shows it: as an image (PNG, GIF, JPEG), as text
/// (`text/*`, JSON, XML, JavaScript), or neither.
pub open spec fn spec_preview_kind(content_type: Seq<char>) -> (bool, bool) {
    let is_image = content_type == "image/png"@ || content_type == "image/gif"@ || content_type
        == "image/jpeg"@;
    let is_text = (content_type.len() >= 5 && content_type.take(5) == "text/"@) || content_type
        == "application/json"@ || content_type == "application/xml"@ || content_type
        == "application/javascript"@;
    (is_image, is_text)
}

fn starts_with_text(s: &str) -> (b: bool)
    ensures
        b == (s@.len() >= 5 && s@.take(5) == "text/"@),
{
    let cs = chars_of(s);
    proof {
        reveal_strlit("text/");
    }
    if cs.len() < 5 {
        return false;
    }
    let b = cs[0] == 't' && cs[1] == 'e' && cs[2] == 'x' && cs[3] == 't' && cs[4] == '/';
    if b {
        assert(s@.take(5) =~= "text/"@);
    } else {
        assert(s@.take(5) != "text/"@) by {
            if s@.take(5) == "text/"@ {
                assert(s@.take(5)[0] == 't' && s@.take(5)[1] == 'e' && s@.take(5)[2] == 'x'
                    && s@.take(5)[3] == 't' && s@.take(5)[4] == '/');
            }
        }
    }
    b
}

pub fn preview_kind(content_type: Option<&str>) -> (r: (bool, bool))
    ensures
        r == spec_preview_kind(match opt_str_view(content_type) {
            Some(c) => c,
            None => Seq::empty(),
        }),
{
    let c: &str = match content_type {
        Some(c) => c,
        None => "",
    };
    proof {
        reveal_strlit("");
        assert(""@ =~= Seq::<char>::empty());
    }
    let is_image = crate::text::str_eq(c, "image/png") || crate::text::str_eq(c, "image/gif")
        || crate::text::str_eq(c, "image/jpeg");
    let is_text = starts_with_text(c) || crate::text::str_eq(c, "application/json")
        || crate::text::str_eq(c, "application/xml") || crate::text::str_eq(
        c,
        "application/javascript",
    );
    (is_image, is_text)
}

/// A text file is previewed when it is at most 128 KiB.
pub fn preview_text_wanted(is_text: bool, size_bytes: i64) -> (b: bool)
    ensures
        b == (is_text && size_bytes <= 131072),
{
    is_text && size_bytes <= 131072
}

} // verus!
