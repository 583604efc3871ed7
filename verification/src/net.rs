//! Addresses and URLs: which targets a URL upload may fetch, how hosts match
//! configured patterns, and who a request is counted against.
use vstd::prelude::*;
use crate::form_fields::refused_with;
use crate::model::{WebError, bad_request};
use crate::settings::UrlUploadConfig;
use crate::text::{
    append_str, ascii_lower, chars_of, opt_str_view, opt_view, split, split_all, str_eq,
    string_from, strings_view, to_ascii_lowercase, trim, trim_bounds, trimmed,
};

verus! {

/// An IP address by its octets (IPv4) or 16-bit segments (IPv6).
#[derive(Clone, Copy, Debug, PartialEq, Eq)]
pub enum IpValue {
    V4(u8, u8, u8, u8),
    V6(u16, u16, u16, u16, u16, u16, u16, u16),
}

/// IPv4 addresses that `Ipv4Addr` calls private, loopback, link-local,
/// unspecified, broadcast or multicast.
pub open spec fn v4_private_or_local(a: u8, b: u8, c: u8, d: u8) -> bool {
    ||| a == 10
    ||| (a == 172 && 16 <= b && b <= 31)
    ||| (a == 192 && b == 168)
    ||| a == 127
    ||| (a == 169 && b == 254)
    ||| (a == 0 && b == 0 && c == 0 && d == 0)
    ||| (a == 255 && b == 255 && c == 255 && d == 255)
    ||| (224 <= a && a <= 239)
}

/// IPv6 addresses that `Ipv6Addr` calls loopback, unspecified, unique local,
/// unicast link-local or multicast.
pub open spec fn v6_private_or_local(s: Seq<u16>) -> bool {
    let zero_prefix = s[0] == 0 && s[1] == 0 && s[2] == 0 && s[3] == 0 && s[4] == 0 && s[5] == 0
        && s[6] == 0;
    ||| (zero_prefix && s[7] == 1)
    ||| (zero_prefix && s[7] == 0)
    ||| (0xfc00 <= s[0] && s[0] <= 0xfdff)
    ||| (0xfe80 <= s[0] && s[0] <= 0xfebf)
    ||| 0xff00 <= s[0]
}

pub open spec fn spec_is_private_upload_ip(ip: IpValue) -> bool {
    match ip {
        IpValue::V4(a, b, c, d) => v4_private_or_local(a, b, c, d),
        IpValue::V6(s0, s1, s2, s3, s4, s5, s6, s7) => v6_private_or_local(
            seq![s0, s1, s2, s3, s4, s5, s6, s7],
        ),
    }
}

/// Every address in the private IPv4 ranges `10.0.0.0/8`, `172.16.0.0/12`
/// and `192.168.0.0/16`, in `127.0.0.0/8` and in `169.254.0.0/16`, and the
/// IPv6 loopback, unique local (`fc00::/7`) and link-local (`fe80::/10`)
/// addresses, counts as private or local; so with private addresses blocked
/// a URL upload whose host is such an address is refused.
pub proof fn law_private_ranges_are_refused(cfg: UrlUploadConfig, u: UrlPartsView, ip: IpValue)
    ensures
        ip matches IpValue::V4(a, b, c, d) ==> ((a == 10 || (a == 172 && 16 <= b <= 31) || (a
            == 192 && b == 168) || a == 127 || (a == 169 && b == 254))
            ==> spec_is_private_upload_ip(ip)),
        ip matches IpValue::V6(s0, s1, s2, s3, s4, s5, s6, s7) ==> (((s0 == 0 && s1 == 0 && s2
            == 0 && s3 == 0 && s4 == 0 && s5 == 0 && s6 == 0 && s7 == 1) || (0xfc00 <= s0
            <= 0xfdff) || (0xfe80 <= s0 <= 0xfebf)) ==> spec_is_private_upload_ip(ip)),
        cfg.block_private_ips && u.2 == Some(HostKind::Ip(ip)) && spec_is_private_upload_ip(ip)
            ==> spec_target_error(cfg, u) is Some,
{
    if let IpValue::V6(s0, s1, s2, s3, s4, s5, s6, s7) = ip {
        let s = seq![s0, s1, s2, s3, s4, s5, s6, s7];
        assert(s[0] == s0 && s[1] == s1 && s[2] == s2 && s[3] == s3);
        assert(s[4] == s4 && s[5] == s5 && s[6] == s6 && s[7] == s7);
    }
}

/// Whether a URL upload must not reach this address.
pub fn is_private_upload_ip(ip: IpValue) -> (b: bool)
    ensures
        b == spec_is_private_upload_ip(ip),
{
    match ip {
        IpValue::V4(a, b, c, d) => {
            a == 10 || (a == 172 && 16 <= b && b <= 31) || (a == 192 && b == 168) || a == 127 || (a
                == 169 && b == 254) || (a == 0 && b == 0 && c == 0 && d == 0) || (a == 255 && b
                == 255 && c == 255 && d == 255) || (224 <= a && a <= 239)
        },
        IpValue::V6(s0, s1, s2, s3, s4, s5, s6, s7) => {
            let zero_prefix = s0 == 0 && s1 == 0 && s2 == 0 && s3 == 0 && s4 == 0 && s5 == 0 && s6
                == 0;
            (zero_prefix && s7 == 1) || (zero_prefix && s7 == 0) || (0xfc00 <= s0 && s0 <= 0xfdff)
                || (0xfe80 <= s0 && s0 <= 0xfebf) || 0xff00 <= s0
        },
    }
}

pub fn reject_private_ip(ip: IpValue) -> (r: Result<(), WebError>)
    ensures
        spec_is_private_upload_ip(ip) ==> refused_with(r, "URL resolved to a private or local address"@),
        !spec_is_private_upload_ip(ip) ==> r is Ok,
{
    if is_private_upload_ip(ip) {
        Err(bad_request("URL resolved to a private or local address"))
    } else {
        Ok(())
    }
}

/// Whether the address is a loopback address (`127.0.0.0/8` or `::1`).
pub open spec fn spec_is_loopback(ip: IpValue) -> bool {
    match ip {
        IpValue::V4(a, _, _, _) => a == 127,
        IpValue::V6(s0, s1, s2, s3, s4, s5, s6, s7) => s0 == 0 && s1 == 0 && s2 == 0 && s3 == 0
            && s4 == 0 && s5 == 0 && s6 == 0 && s7 == 1,
    }
}

pub fn is_loopback(ip: IpValue) -> (b: bool)
    ensures
        b == spec_is_loopback(ip),
{
    match ip {
        IpValue::V4(a, _, _, _) => a == 127,
        IpValue::V6(s0, s1, s2, s3, s4, s5, s6, s7) => s0 == 0 && s1 == 0 && s2 == 0 && s3 == 0
            && s4 == 0 && s5 == 0 && s6 == 0 && s7 == 1,
    }
}

/// `s` without the dots at its end.
pub open spec fn trim_end_dots(s: Seq<char>) -> Seq<char>
    decreases s.len(),
{
    if s.len() > 0 && s.last() == '.' {
        trim_end_dots(s.drop_last())
    } else {
        s
    }
}

pub open spec fn ends_with(s: Seq<char>, suffix: Seq<char>) -> bool {
    s.len() >= suffix.len() && s.skip(s.len() - suffix.len()) == suffix
}

/// Whether `host` matches a configured host pattern: the same name, or a
/// sub-domain of it; a pattern starting with `.` matches by suffix. Case and
/// trailing dots do not count; a blank pattern matches nothing.
pub open spec fn spec_host_matches(host: Seq<char>, pattern: Seq<char>) -> bool {
    let p = ascii_lower(trim_end_dots(trim(pattern)));
    let h = trim_end_dots(host);
    p.len() > 0 && (h == p || (p[0] == '.' && ends_with(h, p)) || ends_with(h, seq!['.'] + p))
}

fn dots_end(cs: &Vec<char>, lo: usize, hi: usize) -> (r: usize)
    requires
        lo <= hi <= cs.len(),
    ensures
        lo <= r <= hi,
        cs@.subrange(lo as int, r as int) == trim_end_dots(cs@.subrange(lo as int, hi as int)),
{
    let mut b = hi;
    while b > lo && cs[b - 1] == '.'
        invariant
            lo <= b <= hi <= cs.len(),
            trim_end_dots(cs@.subrange(lo as int, hi as int)) == trim_end_dots(
                cs@.subrange(lo as int, b as int),
            ),
        decreases b - lo,
    {
        assert(cs@.subrange(lo as int, b as int).drop_last() == cs@.subrange(lo as int, b - 1));
        b -= 1;
    }
    b
}

/// Whether `s` ends with `suffix`.
pub fn str_ends_with(s: &Vec<char>, suffix: &Vec<char>) -> (b: bool)
    ensures
        b == ends_with(s@, suffix@),
{
    if suffix.len() > s.len() {
        return false;
    }
    let off = s.len() - suffix.len();
    let mut i: usize = 0;
    while i < suffix.len()
        invariant
            off + suffix.len() == s.len(),
            i <= suffix.len(),
            forall|k: int| 0 <= k < i ==> s@[off + k] == suffix@[k],
        decreases suffix.len() - i,
    {
        if s[off + i] != suffix[i] {
            assert(s@.skip(off as int)[i as int] != suffix@[i as int]);
            return false;
        }
        i += 1;
    }
    assert(s@.skip(off as int) =~= suffix@);
    true
}

pub fn host_matches(host: &str, pattern: &str) -> (b: bool)
    ensures
        b == spec_host_matches(host@, pattern@),
{
    let pc = chars_of(pattern);
    let (a, z) = trim_bounds(&pc, 0, pc.len());
    assert(pc@.subrange(0, pc@.len() as int) == pc@);
    let z2 = dots_end(&pc, a, z);
    let p_str = string_from(&pc, a, z2);
    let p_low = to_ascii_lowercase(p_str.as_str());
    let p = chars_of(p_low.as_str());
    let hc = chars_of(host);
    let he = dots_end(&hc, 0, hc.len());
    assert(hc@.subrange(0, hc@.len() as int) == hc@);
    let h_str = string_from(&hc, 0, he);
    let h = chars_of(h_str.as_str());
    if p.len() == 0 {
        return false;
    }
    if str_eq(h_str.as_str(), p_low.as_str()) {
        return true;
    }
    if p[0] == '.' && str_ends_with(&h, &p) {
        return true;
    }
    let mut dotted: Vec<char> = Vec::new();
    dotted.push('.');
    let mut i: usize = 0;
    while i < p.len()
        invariant
            i <= p.len(),
            dotted@ == seq!['.'] + p@.take(i as int),
        decreases p.len() - i,
    {
        dotted.push(p[i]);
        assert(p@.take(i + 1) == p@.take(i as int).push(p@[i as int]));
        i += 1;
    }
    assert(p@.take(p.len() as int) == p@);
    str_ends_with(&h, &dotted)
}

/// The host of a URL as the URL parser classifies it.
#[derive(Clone, Copy, Debug, PartialEq, Eq)]
pub enum HostKind {
    Domain,
    Ip(IpValue),
}

/// The parts of a parsed URL that request logic reads.
#[derive(Debug)]
pub struct UrlParts {
    pub scheme: String,
    /// The host as the URL writes it, lower case for domains.
    pub host_text: Option<String>,
    pub host_kind: Option<HostKind>,
    /// The port written in the URL, when it is not the scheme's default.
    pub port: Option<u16>,
    pub path: String,
}

/// Scheme, host text, host kind, explicit port and path.
pub type UrlPartsView = (Seq<char>, Option<Seq<char>>, Option<HostKind>, Option<u16>, Seq<char>);

impl View for UrlParts {
    type V = UrlPartsView;

    open spec fn view(&self) -> UrlPartsView {
        (self.scheme@, opt_view(self.host_text), self.host_kind, self.port, self.path@)
    }
}

/// What the URL parser makes of a text: its parts, or the text of the
/// parse error when it is not a valid absolute URL.
pub uninterp spec fn parsed_url(text: Seq<char>) -> Result<UrlPartsView, Seq<char>>;

pub open spec fn parts_result_view(p: Result<UrlParts, String>) -> Result<UrlPartsView, Seq<char>> {
    match p {
        Ok(u) => Ok(u@),
        Err(e) => Err(e@),
    }
}

/// Parses an absolute URL with the `url` crate (`Url::parse`) and reads its
/// scheme, host, explicit port and path, or the error's text; the result is
/// the name `parsed_url` of the text.
#[verifier::external_body]
pub(crate) fn parse_url(text: &str) -> (r: Result<UrlParts, String>)
    ensures
        parts_result_view(r) == parsed_url(text@),
{
    let u = match url::Url::parse(text) {
        Ok(u) => u,
        Err(e) => return Err(e.to_string()),
    };
    let host_kind = match u.host() {
        None => None,
        Some(url::Host::Domain(_)) => Some(HostKind::Domain),
        Some(url::Host::Ipv4(a)) => Some(host_v4(a.octets())),
        Some(url::Host::Ipv6(a)) => Some(host_v6(a.segments())),
    };
    let host_text = u.host_str().map(str::to_owned);
    Ok(UrlParts { scheme: u.scheme().into(), host_text, host_kind, port: u.port(), path: u.path().into() })
}

/// The URL of a URL upload: it must parse, and be `http` or `https`.
pub open spec fn spec_upload_url(text: Seq<char>) -> Result<UrlPartsView, Seq<char>> {
    match parsed_url(text) {
        Err(e) => Err("invalid URL: "@ + e),
        Ok(u) => if u.0 == "http"@ || u.0 == "https"@ {
            Ok(u)
        } else {
            Err("only http and https URLs are supported"@)
        },
    }
}

pub fn parse_upload_url(text: &str) -> (r: Result<UrlParts, WebError>)
    ensures
        match spec_upload_url(text@) {
            Ok(v) => r matches Ok(u) && u@ == v,
            Err(m) => refused_with(r, m),
        },
{
    match parse_url(text) {
        Err(e) => Err(crate::model::bad_request_with("invalid URL: ", e.as_str())),
        Ok(u) => if str_eq(u.scheme.as_str(), "http") || str_eq(u.scheme.as_str(), "https") {
            Ok(u)
        } else {
            Err(bad_request("only http and https URLs are supported"))
        },
    }
}

/// The host kind of an IPv4 address, from its octets.
fn host_v4(o: [u8; 4]) -> (r: HostKind)
    ensures
        r == HostKind::Ip(IpValue::V4(o[0], o[1], o[2], o[3])),
{
    HostKind::Ip(IpValue::V4(o[0], o[1], o[2], o[3]))
}

/// The host kind of an IPv6 address, from its segments.
fn host_v6(s: [u16; 8]) -> (r: HostKind)
    ensures
        r == HostKind::Ip(IpValue::V6(s[0], s[1], s[2], s[3], s[4], s[5], s[6], s[7])),
{
    HostKind::Ip(IpValue::V6(s[0], s[1], s[2], s[3], s[4], s[5], s[6], s[7]))
}

/// The port a scheme uses when a URL names none: `http` and `ws` 80, `https`
/// and `wss` 443, `ftp` 21.
pub open spec fn spec_default_port(scheme: Seq<char>) -> Option<u16> {
    if scheme == "http"@ || scheme == "ws"@ {
        Some(80)
    } else if scheme == "https"@ || scheme == "wss"@ {
        Some(443)
    } else if scheme == "ftp"@ {
        Some(21)
    } else {
        None
    }
}

/// The explicit port, or the scheme's default, as `Url::port_or_known_default` gives it.
pub open spec fn spec_port_or_default(u: UrlPartsView) -> Option<u16> {
    match u.3 {
        Some(p) => Some(p),
        None => spec_default_port(u.0),
    }
}

pub fn port_or_known_default(u: &UrlParts) -> (r: Option<u16>)
    ensures
        r == spec_port_or_default(u@),
{
    match u.port {
        Some(p) => Some(p),
        None => {
            let s = u.scheme.as_str();
            if str_eq(s, "http") || str_eq(s, "ws") {
                Some(80)
            } else if str_eq(s, "https") || str_eq(s, "wss") {
                Some(443)
            } else if str_eq(s, "ftp") {
                Some(21)
            } else {
                None
            }
        },
    }
}

/// The last path segment of a URL whose path starts with `/`, when not empty;
/// URL uploads take it as the file name.
pub open spec fn spec_last_segment(path: Seq<char>) -> Option<Seq<char>> {
    if path.len() > 0 && path[0] == '/' {
        let segs = split(path.drop_first(), '/');
        if segs.last().len() > 0 {
            Some(segs.last())
        } else {
            None
        }
    } else {
        None
    }
}

pub fn last_path_segment(u: &UrlParts) -> (r: Option<String>)
    ensures
        opt_view(r) == spec_last_segment(u.path@),
{
    let cs = chars_of(u.path.as_str());
    if cs.len() == 0 || cs[0] != '/' {
        return None;
    }
    let rest = string_from(&cs, 1, cs.len());
    assert(cs@.subrange(1, cs@.len() as int) == cs@.drop_first());
    let mut segs = split_all(rest.as_str(), '/');
    proof {
        crate::text::lemma_split_nonempty(rest@, '/');
    }
    let last = segs.pop().unwrap();
    if last.as_str().is_empty() {
        None
    } else {
        Some(last)
    }
}

pub open spec fn contains_u16(v: Seq<u16>, x: u16) -> bool {
    exists|i: int| 0 <= i < v.len() && v[i] == x
}

fn has_port(v: &Vec<u16>, x: u16) -> (b: bool)
    ensures
        b == contains_u16(v@, x),
{
    let mut i: usize = 0;
    while i < v.len()
        invariant
            i <= v.len(),
            forall|k: int| 0 <= k < i ==> v@[k] != x,
        decreases v.len() - i,
    {
        if v[i] == x {
            return true;
        }
        i += 1;
    }
    false
}

pub open spec fn any_host_matches(patterns: Seq<Seq<char>>, host: Seq<char>) -> bool {
    exists|i: int| 0 <= i < patterns.len() && spec_host_matches(host, patterns[i])
}

fn any_matches(patterns: &Vec<String>, host: &str) -> (b: bool)
    ensures
        b == any_host_matches(strings_view(patterns@), host@),
{
    let mut i: usize = 0;
    while i < patterns.len()
        invariant
            i <= patterns.len(),
            forall|k: int| 0 <= k < i ==> !spec_host_matches(host@, strings_view(patterns@)[k]),
        decreases patterns.len() - i,
    {
        if host_matches(host, patterns[i].as_str()) {
            assert(strings_view(patterns@)[i as int] == patterns@[i as int]@);
            return true;
        }
        i += 1;
    }
    false
}

/// What must still happen before a URL may be fetched.
#[derive(Debug)]
pub enum TargetCheck {
    /// Nothing more: the target is allowed.
    Allowed,
    /// The host name must be resolved, and every address it resolves to must
    /// pass `check_resolved_addresses`.
    Resolve { host: String, port: u16 },
}

/// The first reason a URL upload may not fetch `u`, in the order they are
/// checked; `None` when the target passes. `Allowed` or `Resolve` follows
/// from `spec_target_needs_resolve`.
pub open spec fn spec_target_error(cfg: UrlUploadConfig, u: UrlPartsView) -> Option<Seq<char>> {
    let port = match spec_port_or_default(u) {
        Some(p) => p,
        None => 80u16,
    };
    let host = ascii_lower(u.1.unwrap());
    if !(u.0 == "http"@ || u.0 == "https"@) {
        Some("only http and https URLs are supported"@)
    } else if cfg.allowed_ports@.len() > 0 && !contains_u16(cfg.allowed_ports@, port) {
        Some("URL port is not allowed"@)
    } else if contains_u16(cfg.blocked_ports@, port) {
        Some("URL port is blocked"@)
    } else if u.1 is None {
        Some("URL host is required"@)
    } else if any_host_matches(strings_view(cfg.blocked_hosts@), host) {
        Some("URL host is blocked"@)
    } else if strings_view(cfg.allowed_hosts@).len() > 0 && !any_host_matches(
        strings_view(cfg.allowed_hosts@),
        host,
    ) {
        Some("URL host is not allowed"@)
    } else if cfg.block_private_ips {
        match u.2 {
            Some(HostKind::Ip(ip)) => if spec_is_private_upload_ip(ip) {
                Some("URL resolved to a private or local address"@)
            } else {
                None
            },
            Some(HostKind::Domain) => None,
            None => Some("URL host is required"@),
        }
    } else {
        None
    }
}

/// A domain host must be resolved when private addresses are blocked.
pub open spec fn spec_target_needs_resolve(cfg: UrlUploadConfig, u: UrlPartsView) -> bool {
    cfg.block_private_ips && u.2 == Some(HostKind::Domain)
}

/// Checks a URL upload target against the URL upload settings.
pub fn validate_url_upload_target(cfg: &UrlUploadConfig, u: &UrlParts) -> (r: Result<TargetCheck, WebError>)
    ensures
        match spec_target_error(*cfg, u@) {
            Some(m) => refused_with(r, m),
            None => r matches Ok(c) && (c is Resolve <==> spec_target_needs_resolve(*cfg, u@)) && (
            c matches TargetCheck::Resolve { host, port } ==> host@ == u@.1.unwrap() && Some(port)
                == spec_port_or_default(u@)),
        },
{
    if !(str_eq(u.scheme.as_str(), "http") || str_eq(u.scheme.as_str(), "https")) {
        return Err(bad_request("only http and https URLs are supported"));
    }
    let port = match port_or_known_default(u) {
        Some(p) => p,
        None => 80,
    };
    if cfg.allowed_ports.len() > 0 && !has_port(&cfg.allowed_ports, port) {
        return Err(bad_request("URL port is not allowed"));
    }
    if has_port(&cfg.blocked_ports, port) {
        return Err(bad_request("URL port is blocked"));
    }
    let host_text = match &u.host_text {
        Some(h) => h,
        None => return Err(bad_request("URL host is required")),
    };
    let host = to_ascii_lowercase(host_text.as_str());
    if any_matches(&cfg.blocked_hosts, host.as_str()) {
        return Err(bad_request("URL host is blocked"));
    }
    if cfg.allowed_hosts.len() > 0 && !any_matches(&cfg.allowed_hosts, host.as_str()) {
        return Err(bad_request("URL host is not allowed"));
    }
    if cfg.block_private_ips {
        match u.host_kind {
            Some(HostKind::Ip(ip)) => {
                match reject_private_ip(ip) {
                    Ok(()) => {},
                    Err(e) => return Err(e),
                }
                Ok(TargetCheck::Allowed)
            },
            Some(HostKind::Domain) => Ok(TargetCheck::Resolve { host: host_text.clone(), port }),
            None => Err(bad_request("URL host is required")),
        }
    } else {
        Ok(TargetCheck::Allowed)
    }
}

/// The addresses a host name resolved to pass when there is at least one and
/// none is private or local; the first offending address decides.
pub fn check_resolved_addresses(addrs: &Vec<IpValue>) -> (r: Result<(), WebError>)
    ensures
        addrs@.len() == 0 ==> refused_with(r, "URL host did not resolve"@),
        (exists|i: int| 0 <= i < addrs@.len() && spec_is_private_upload_ip(#[trigger] addrs@[i]))
            ==> refused_with(r, "URL resolved to a private or local address"@),
        r is Ok <==> addrs@.len() > 0 && forall|i: int|
            0 <= i < addrs@.len() ==> !spec_is_private_upload_ip(#[trigger] addrs@[i]),
{
    let mut i: usize = 0;
    while i < addrs.len()
        invariant
            i <= addrs.len(),
            forall|k: int| 0 <= k < i ==> !spec_is_private_upload_ip(#[trigger] addrs@[k]),
        decreases addrs.len() - i,
    {
        match reject_private_ip(addrs[i]) {
            Ok(()) => {},
            Err(e) => return Err(e),
        }
        i += 1;
    }
    if addrs.len() == 0 {
        return Err(bad_request("URL host did not resolve"));
    }
    Ok(())
}

/// The first comma-separated entry of a forwarding header, trimmed.
pub open spec fn first_entry(value: Seq<char>) -> Seq<char> {
    trim(split(value, ',')[0])
}

fn first_forwarded(value: &str) -> (r: String)
    ensures
        r@ == first_entry(value@),
{
    let parts = split_all(value, ',');
    proof {
        crate::text::lemma_split_nonempty(value@, ',');
    }
    trimmed(parts[0].as_str())
}

/// Who a request is counted against for rate limiting: the signed-in user; or,
/// behind a trusted proxy, the first `X-Forwarded-For` entry, else `X-Real-IP`;
/// otherwise one shared anonymous bucket.
pub open spec fn spec_rate_limit_identity(
    user_id: Option<Seq<char>>,
    behind_proxy: bool,
    forwarded_for: Option<Seq<char>>,
    real_ip: Option<Seq<char>>,
) -> Seq<char> {
    match user_id {
        Some(id) => "user:"@ + id,
        None => if behind_proxy && forwarded_for is Some && first_entry(forwarded_for.unwrap()).len()
            > 0 {
            "ip:"@ + first_entry(forwarded_for.unwrap())
        } else if behind_proxy && real_ip is Some && real_ip.unwrap().len() > 0 {
            "ip:"@ + real_ip.unwrap()
        } else {
            "anonymous"@
        },
    }
}

/// Signed-in users are counted apart: two different accounts never share a
/// rate limit bucket, whatever their requests carry.
pub proof fn law_accounts_are_counted_apart(
    a: Seq<char>,
    b: Seq<char>,
    behind_proxy: bool,
    forwarded_a: Option<Seq<char>>,
    forwarded_b: Option<Seq<char>>,
    real_a: Option<Seq<char>>,
    real_b: Option<Seq<char>>,
)
    requires
        a != b,
    ensures
        spec_rate_limit_identity(Some(a), behind_proxy, forwarded_a, real_a)
            != spec_rate_limit_identity(Some(b), behind_proxy, forwarded_b, real_b),
{
    let p = "user:"@;
    if p + a == p + b {
        assert((p + a).skip(p.len() as int) =~= a);
        assert((p + b).skip(p.len() as int) =~= b);
    }
}

/// Without a trusted proxy, the forwarding headers a client sends never change
/// which bucket its requests are counted against.
pub proof fn law_spoofed_headers_are_ignored_without_proxy(
    user_id: Option<Seq<char>>,
    forwarded_a: Option<Seq<char>>,
    forwarded_b: Option<Seq<char>>,
    real_a: Option<Seq<char>>,
    real_b: Option<Seq<char>>,
)
    ensures
        spec_rate_limit_identity(user_id, false, forwarded_a, real_a) == spec_rate_limit_identity(
            user_id,
            false,
            forwarded_b,
            real_b,
        ),
{
}

pub fn rate_limit_identity(
    user_id: Option<&str>,
    behind_proxy: bool,
    forwarded_for: Option<&str>,
    real_ip: Option<&str>,
) -> (r: String)
    ensures
        r@ == spec_rate_limit_identity(
            opt_str_view(user_id),
            behind_proxy,
            opt_str_view(forwarded_for),
            opt_str_view(real_ip),
        ),
{
    if let Some(id) = user_id {
        let mut s = "user:".to_owned();
        append_str(&mut s, id);
        return s;
    }
    if behind_proxy {
        if let Some(f) = forwarded_for {
            let first = first_forwarded(f);
            if !first.as_str().is_empty() {
                let mut s = "ip:".to_owned();
                append_str(&mut s, first.as_str());
                return s;
            }
        }
        if let Some(ip) = real_ip {
            if !ip.is_empty() {
                let mut s = "ip:".to_owned();
                append_str(&mut s, ip);
                return s;
            }
        }
    }
    "anonymous".to_owned()
}

/// The client address an access check uses: behind a trusted proxy the
/// address named by `X-Real-IP` (else `X-Forwarded-For`) when it parsed,
/// otherwise the peer of the connection.
pub fn client_ip_for_access_check(
    behind_proxy: bool,
    header_ip: Option<IpValue>,
    peer: Option<IpValue>,
) -> (r: Option<IpValue>)
    ensures
        r == if behind_proxy && header_ip is Some {
            header_ip
        } else {
            peer
        },
{
    if behind_proxy {
        if let Some(ip) = header_ip {
            return Some(ip);
        }
    }
    peer
}

/// The header value whose first entry names the client behind a proxy:
/// `X-Real-IP` when present, else `X-Forwarded-For`; `None` when that entry
/// is blank.
pub fn forwarded_client_text(real_ip: Option<&str>, forwarded_for: Option<&str>) -> (r: Option<String>)
    ensures
        opt_view(r) == match (if real_ip is Some {
            opt_str_view(real_ip)
        } else {
            opt_str_view(forwarded_for)
        }) {
            Some(v) => if first_entry(v).len() > 0 {
                Some(first_entry(v))
            } else {
                None
            },
            None => None,
        },
{
    let chosen = match real_ip {
        Some(v) => Some(v),
        None => forwarded_for,
    };
    match chosen {
        Some(v) => {
            let first = first_forwarded(v);
            if first.as_str().is_empty() {
                None
            } else {
                Some(first)
            }
        },
        None => None,
    }
}

} // verus!
