//! Reading single values out of the operator settings form.
use vstd::prelude::*;
use crate::model::{ActionRule, WebError, bad_request, bad_request_with, is_bad_request};
use crate::numbers::{
    IntErrorKind, parse_i64, parse_u16, parse_u32, parse_u64, parse_u8, parse_usize,
    spec_parse_i64, spec_parse_u16, spec_parse_u32, spec_parse_u64, spec_parse_u8,
    spec_parse_usize,
};
use crate::settings::{
    ContentDispositionMode, DeletePolicy, Keyed, MetricsAccessMode, QuotaConfig,
    RateLimitBackend, RateLimitConfig, RiskyMimeMode, ScanDecision, SignupMode,
};
use crate::homepage::spec_join_lines;
use crate::text::{
    append_str, nonempty, opt_str_view, opt_view, spec_nonempty, split, split_trimmed_nonempty,
    str_eq, strings_view, trim, trimmed_nonempty,
};

verus! {

/// `r` failed with a bad request carrying `msg`.
pub open spec fn refused_with<T>(r: Result<T, WebError>, msg: Seq<char>) -> bool {
    r matches Err(e) && is_bad_request(e, msg)
}

/// The text of a form field, if it was sent.
pub fn field(o: &Option<String>) -> (r: Option<&str>)
    ensures
        opt_str_view(r) == opt_view(*o),
{
    match o {
        Some(s) => Some(s.as_str()),
        None => None,
    }
}

/// The message `str::parse` failures are reported with.
pub open spec fn invalid_integer(k: IntErrorKind) -> Seq<char> {
    "invalid integer: "@ + k.spec_message()
}

/// A required integer field: trimmed, present, and a valid `i64`.
pub open spec fn spec_required_i64(name: Seq<char>, value: Option<Seq<char>>) -> Result<
    int,
    Seq<char>,
> {
    match spec_nonempty(value) {
        None => Err(name + " is required"@),
        Some(t) => match spec_parse_i64(t) {
            Ok(v) => Ok(v),
            Err(k) => Err(name + ": "@ + k.spec_message()),
        },
    }
}

/// An optional integer field: blank means absent; otherwise it must parse.
pub open spec fn spec_optional(
    value: Option<Seq<char>>,
    parse: spec_fn(Seq<char>) -> Result<int, IntErrorKind>,
) -> Result<Option<int>, Seq<char>> {
    match spec_nonempty(value) {
        None => Ok(None),
        Some(t) => match parse(t) {
            Ok(v) => Ok(Some(v)),
            Err(k) => Err(invalid_integer(k)),
        },
    }
}

pub open spec fn opt_i64_view(o: Option<i64>) -> Option<int> {
    match o {
        Some(v) => Some(v as int),
        None => None,
    }
}

pub open spec fn opt_u64_view(o: Option<u64>) -> Option<int> {
    match o {
        Some(v) => Some(v as int),
        None => None,
    }
}

pub open spec fn opt_u32_view(o: Option<u32>) -> Option<int> {
    match o {
        Some(v) => Some(v as int),
        None => None,
    }
}

pub open spec fn opt_u8_view(o: Option<u8>) -> Option<int> {
    match o {
        Some(v) => Some(v as int),
        None => None,
    }
}

pub open spec fn opt_usize_view(o: Option<usize>) -> Option<int> {
    match o {
        Some(v) => Some(v as int),
        None => None,
    }
}

pub fn parse_required_i64(name: &str, value: Option<&str>) -> (r: Result<i64, WebError>)
    ensures
        match spec_required_i64(name@, opt_str_view(value)) {
            Ok(v) => r matches Ok(x) && x == v,
            Err(m) => refused_with(r, m),
        },
{
    let t = match nonempty(value) {
        Some(t) => t,
        None => {
            return Err(bad_request_with(name, " is required"));
        },
    };
    match parse_i64(t.as_str()) {
        Ok(v) => Ok(v),
        Err(k) => {
            let mut prefix = name.to_owned();
            append_str(&mut prefix, ": ");
            Err(bad_request_with(prefix.as_str(), k.message()))
        },
    }
}

pub fn parse_optional_i64(value: Option<&str>) -> (r: Result<Option<i64>, WebError>)
    ensures
        match spec_optional(opt_str_view(value), |t| spec_parse_i64(t)) {
            Ok(o) => r matches Ok(x) && opt_i64_view(x) == o,
            Err(m) => refused_with(r, m),
        },
{
    match nonempty(value) {
        None => Ok(None),
        Some(t) => match parse_i64(t.as_str()) {
            Ok(v) => Ok(Some(v)),
            Err(k) => Err(bad_request_with("invalid integer: ", k.message())),
        },
    }
}

pub fn parse_optional_usize(value: Option<&str>) -> (r: Result<Option<usize>, WebError>)
    ensures
        match spec_optional(opt_str_view(value), |t| spec_parse_usize(t)) {
            Ok(o) => r matches Ok(x) && opt_usize_view(x) == o,
            Err(m) => refused_with(r, m),
        },
{
    match nonempty(value) {
        None => Ok(None),
        Some(t) => match parse_usize(t.as_str()) {
            Ok(v) => Ok(Some(v)),
            Err(k) => Err(bad_request_with("invalid integer: ", k.message())),
        },
    }
}

pub fn parse_optional_u32(value: Option<&str>) -> (r: Result<Option<u32>, WebError>)
    ensures
        match spec_optional(opt_str_view(value), |t| spec_parse_u32(t)) {
            Ok(o) => r matches Ok(x) && opt_u32_view(x) == o,
            Err(m) => refused_with(r, m),
        },
{
    match nonempty(value) {
        None => Ok(None),
        Some(t) => match parse_u32(t.as_str()) {
            Ok(v) => Ok(Some(v)),
            Err(k) => Err(bad_request_with("invalid integer: ", k.message())),
        },
    }
}

pub fn parse_optional_u64(value: Option<&str>) -> (r: Result<Option<u64>, WebError>)
    ensures
        match spec_optional(opt_str_view(value), |t| spec_parse_u64(t)) {
            Ok(o) => r matches Ok(x) && opt_u64_view(x) == o,
            Err(m) => refused_with(r, m),
        },
{
    match nonempty(value) {
        None => Ok(None),
        Some(t) => match parse_u64(t.as_str()) {
            Ok(v) => Ok(Some(v)),
            Err(k) => Err(bad_request_with("invalid integer: ", k.message())),
        },
    }
}

pub fn parse_optional_u8(value: Option<&str>) -> (r: Result<Option<u8>, WebError>)
    ensures
        match spec_optional(opt_str_view(value), |t| spec_parse_u8(t)) {
            Ok(o) => r matches Ok(x) && opt_u8_view(x) == o,
            Err(m) => refused_with(r, m),
        },
{
    match nonempty(value) {
        None => Ok(None),
        Some(t) => match parse_u8(t.as_str()) {
            Ok(v) => Ok(Some(v)),
            Err(k) => Err(bad_request_with("invalid integer: ", k.message())),
        },
    }
}

/// The trimmed, non-empty lines of a text area; an absent field has none.
pub open spec fn spec_lines(value: Option<Seq<char>>) -> Seq<Seq<char>> {
    match value {
        Some(v) => trimmed_nonempty(split(v, '\n')),
        None => trimmed_nonempty(split(Seq::empty(), '\n')),
    }
}

pub fn lines(value: Option<&str>) -> (r: Vec<String>)
    ensures
        strings_view(r@) == spec_lines(opt_str_view(value)),
{
    match value {
        Some(v) => split_trimmed_nonempty(v, '\n'),
        None => {
            proof {
                reveal_strlit("");
            }
            split_trimmed_nonempty("", '\n')
        },
    }
}

/// Lines read back: each line kept is non-empty and its own trim, and the
/// lines joined by new lines read back as the same lines.
pub proof fn law_lines_read_back(value: Option<Seq<char>>)
    ensures
        forall|i: int|
            0 <= i < spec_lines(value).len() ==> (#[trigger] spec_lines(value)[i]).len() > 0
                && trim(spec_lines(value)[i]) == spec_lines(value)[i],
        spec_lines(Some(spec_join_lines(spec_lines(value)))) == spec_lines(value),
{
    let v = match value {
        Some(v) => v,
        None => Seq::<char>::empty(),
    };
    let ls = spec_lines(value);
    crate::text::lemma_split_pieces_lack_sep(v, '\n');
    crate::text::lemma_trimmed_nonempty_shape(split(v, '\n'), '\n');
    assert(ls == trimmed_nonempty(split(v, '\n')));
    if ls.len() == 0 {
        let e = Seq::<char>::empty();
        assert(spec_join_lines(ls) == e);
        assert(split(e, '\n') == seq![e]);
        assert(trim(e) == e) by {
            assert(crate::text::trim_start(e) == e);
        }
        assert(seq![e].drop_last() =~= Seq::<Seq<char>>::empty());
        assert(trimmed_nonempty(Seq::<Seq<char>>::empty()) == Seq::<Seq<char>>::empty());
        assert(seq![e].last() == e);
        assert(trim(seq![e].last()).len() == 0);
        assert(trimmed_nonempty(seq![e]) =~= Seq::<Seq<char>>::empty());
    } else {
        crate::homepage::lemma_split_join(ls);
        crate::homepage::lemma_trimmed_nonempty_all(ls);
        assert(ls.map_values(|l: Seq<char>| trim(l)) =~= ls);
    }
}

/// Port numbers, one per line; the first line that is not a `u16` is reported.
pub open spec fn spec_ports(ls: Seq<Seq<char>>) -> Result<Seq<u16>, Seq<char>>
    decreases ls.len(),
{
    if ls.len() == 0 {
        Ok(Seq::empty())
    } else {
        match spec_ports(ls.drop_last()) {
            Err(m) => Err(m),
            Ok(v) => match spec_parse_u16(ls.last()) {
                Ok(p) => Ok(v.push(p as u16)),
                Err(k) => Err("invalid port "@ + ls.last() + ": "@ + k.spec_message()),
            },
        }
    }
}

pub fn parse_u16_lines(value: Option<&str>) -> (r: Result<Vec<u16>, WebError>)
    ensures
        match spec_ports(spec_lines(opt_str_view(value))) {
            Ok(ps) => r matches Ok(v) && v@ == ps,
            Err(m) => refused_with(r, m),
        },
{
    let ls = lines(value);
    let ghost all = spec_lines(opt_str_view(value));
    let mut out: Vec<u16> = Vec::new();
    let mut i: usize = 0;
    while i < ls.len()
        invariant
            i <= ls.len(),
            strings_view(ls@) == all,
            all == spec_lines(opt_str_view(value)),
            spec_ports(all.take(i as int)) == Ok::<Seq<u16>, Seq<char>>(out@),
        decreases ls.len() - i,
    {
        assert(all.take(i + 1).drop_last() == all.take(i as int));
        assert(all.take(i + 1).last() == ls@[i as int]@);
        match parse_u16(ls[i].as_str()) {
            Ok(p) => {
                out.push(p);
            },
            Err(k) => {
                let mut prefix = "invalid port ".to_owned();
                append_str(&mut prefix, ls[i].as_str());
                append_str(&mut prefix, ": ");
                proof {
                    let m = "invalid port "@ + all.take(i + 1).last() + ": "@ + k.spec_message();
                    assert(spec_ports(all.take(i + 1)) == Err::<Seq<u16>, Seq<char>>(m));
                    lemma_ports_error_sticks(all, i + 1);
                }
                let e = bad_request_with(prefix.as_str(), k.message());
                assert(is_bad_request(e, "invalid port "@ + all.take(i + 1).last() + ": "@ + k.spec_message()));
                assert(spec_ports(all) == spec_ports(all.take(i + 1)));
                return Err(e);
            },
        }
        i += 1;
    }
    assert(all.take(ls.len() as int) == all);
    Ok(out)
}

proof fn lemma_ports_error_sticks(ls: Seq<Seq<char>>, i: int)
    requires
        0 <= i <= ls.len(),
        spec_ports(ls.take(i)) is Err,
    ensures
        spec_ports(ls) == spec_ports(ls.take(i)),
    decreases ls.len() - i,
{
    if i < ls.len() {
        assert(ls.take(i + 1).drop_last() == ls.take(i));
        lemma_ports_error_sticks(ls, i + 1);
    } else {
        assert(ls.take(i) == ls);
    }
}

pub open spec fn spec_quota_is_empty(q: QuotaConfig) -> bool {
    q.storage_bytes is None && q.daily_upload_bytes is None && q.monthly_upload_bytes is None
        && q.item_count is None
}

pub fn quota_is_empty(quota: &QuotaConfig) -> (b: bool)
    ensures
        b == spec_quota_is_empty(*quota),
{
    quota.storage_bytes.is_none() && quota.daily_upload_bytes.is_none()
        && quota.monthly_upload_bytes.is_none() && quota.item_count.is_none()
}

pub open spec fn spec_rate_limit_backend(v: Seq<char>) -> Option<RateLimitBackend> {
    if v == "memory"@ {
        Some(RateLimitBackend::Memory)
    } else if v == "database"@ {
        Some(RateLimitBackend::Database)
    } else {
        None
    }
}

pub fn parse_rate_limit_backend(value: &str) -> (r: Result<RateLimitBackend, WebError>)
    ensures
        match spec_rate_limit_backend(value@) {
            Some(b) => r matches Ok(x) && x == b,
            None => refused_with(r, "invalid rate limit backend"@),
        },
{
    if str_eq(value, "memory") {
        Ok(RateLimitBackend::Memory)
    } else if str_eq(value, "database") {
        Ok(RateLimitBackend::Database)
    } else {
        Err(bad_request("invalid rate limit backend"))
    }
}

pub open spec fn spec_metrics_access(v: Seq<char>) -> Option<MetricsAccessMode> {
    if v == "public"@ {
        Some(MetricsAccessMode::Public)
    } else if v == "admin"@ {
        Some(MetricsAccessMode::Admin)
    } else if v == "token"@ {
        Some(MetricsAccessMode::Token)
    } else if v == "loopback"@ {
        Some(MetricsAccessMode::Loopback)
    } else {
        None
    }
}

pub fn parse_metrics_access(value: &str) -> (r: Result<MetricsAccessMode, WebError>)
    ensures
        match spec_metrics_access(value@) {
            Some(b) => r matches Ok(x) && x == b,
            None => refused_with(r, "invalid metrics access"@),
        },
{
    if str_eq(value, "public") {
        Ok(MetricsAccessMode::Public)
    } else if str_eq(value, "admin") {
        Ok(MetricsAccessMode::Admin)
    } else if str_eq(value, "token") {
        Ok(MetricsAccessMode::Token)
    } else if str_eq(value, "loopback") {
        Ok(MetricsAccessMode::Loopback)
    } else {
        Err(bad_request("invalid metrics access"))
    }
}

pub open spec fn spec_signup_mode(v: Seq<char>) -> Option<SignupMode> {
    if v == "disabled"@ {
        Some(SignupMode::Disabled)
    } else if v == "open"@ {
        Some(SignupMode::Open)
    } else if v == "invite_only"@ {
        Some(SignupMode::InviteOnly)
    } else if v == "admin_created"@ {
        Some(SignupMode::AdminCreated)
    } else {
        None
    }
}

pub fn parse_signup_mode(value: &str) -> (r: Result<SignupMode, WebError>)
    ensures
        match spec_signup_mode(value@) {
            Some(b) => r matches Ok(x) && x == b,
            None => refused_with(r, "invalid signup mode"@),
        },
{
    if str_eq(value, "disabled") {
        Ok(SignupMode::Disabled)
    } else if str_eq(value, "open") {
        Ok(SignupMode::Open)
    } else if str_eq(value, "invite_only") {
        Ok(SignupMode::InviteOnly)
    } else if str_eq(value, "admin_created") {
        Ok(SignupMode::AdminCreated)
    } else {
        Err(bad_request("invalid signup mode"))
    }
}

pub open spec fn spec_action_rule(v: Seq<char>) -> Option<ActionRule> {
    if v == "disabled"@ {
        Some(ActionRule::Disabled)
    } else if v == "anonymous"@ {
        Some(ActionRule::Anonymous)
    } else if v == "authenticated"@ {
        Some(ActionRule::Authenticated)
    } else if v == "moderator"@ {
        Some(ActionRule::Moderator)
    } else if v == "admin"@ {
        Some(ActionRule::Admin)
    } else if v == "owner"@ {
        Some(ActionRule::Owner)
    } else {
        None
    }
}

pub fn parse_action_rule(value: &str) -> (r: Result<ActionRule, WebError>)
    ensures
        match spec_action_rule(value@) {
            Some(b) => r matches Ok(x) && x == b,
            None => refused_with(r, "invalid action rule"@),
        },
{
    if str_eq(value, "disabled") {
        Ok(ActionRule::Disabled)
    } else if str_eq(value, "anonymous") {
        Ok(ActionRule::Anonymous)
    } else if str_eq(value, "authenticated") {
        Ok(ActionRule::Authenticated)
    } else if str_eq(value, "moderator") {
        Ok(ActionRule::Moderator)
    } else if str_eq(value, "admin") {
        Ok(ActionRule::Admin)
    } else if str_eq(value, "owner") {
        Ok(ActionRule::Owner)
    } else {
        Err(bad_request("invalid action rule"))
    }
}

pub open spec fn spec_delete_policy(v: Seq<char>) -> Option<DeletePolicy> {
    if v == "disabled"@ {
        Some(DeletePolicy::Disabled)
    } else if v == "delete_tokens"@ {
        Some(DeletePolicy::DeleteTokens)
    } else if v == "no_anonymous_delete"@ {
        Some(DeletePolicy::NoAnonymousDelete)
    } else if v == "claim_later"@ {
        Some(DeletePolicy::ClaimLater)
    } else {
        None
    }
}

pub fn parse_delete_policy(value: &str) -> (r: Result<DeletePolicy, WebError>)
    ensures
        match spec_delete_policy(value@) {
            Some(b) => r matches Ok(x) && x == b,
            None => refused_with(r, "invalid delete policy"@),
        },
{
    if str_eq(value, "disabled") {
        Ok(DeletePolicy::Disabled)
    } else if str_eq(value, "delete_tokens") {
        Ok(DeletePolicy::DeleteTokens)
    } else if str_eq(value, "no_anonymous_delete") {
        Ok(DeletePolicy::NoAnonymousDelete)
    } else if str_eq(value, "claim_later") {
        Ok(DeletePolicy::ClaimLater)
    } else {
        Err(bad_request("invalid delete policy"))
    }
}

pub open spec fn spec_scan_decision(v: Seq<char>) -> Option<ScanDecision> {
    if v == "allow"@ {
        Some(ScanDecision::Allow)
    } else if v == "quarantine"@ {
        Some(ScanDecision::Quarantine)
    } else if v == "reject"@ {
        Some(ScanDecision::Reject)
    } else {
        None
    }
}

pub fn parse_scan_decision(value: &str) -> (r: Result<ScanDecision, WebError>)
    ensures
        match spec_scan_decision(value@) {
            Some(b) => r matches Ok(x) && x == b,
            None => refused_with(r, "invalid scanner failure behavior"@),
        },
{
    if str_eq(value, "allow") {
        Ok(ScanDecision::Allow)
    } else if str_eq(value, "quarantine") {
        Ok(ScanDecision::Quarantine)
    } else if str_eq(value, "reject") {
        Ok(ScanDecision::Reject)
    } else {
        Err(bad_request("invalid scanner failure behavior"))
    }
}

pub open spec fn spec_content_disposition(v: Seq<char>) -> Option<ContentDispositionMode> {
    if v == "attachment"@ {
        Some(ContentDispositionMode::Attachment)
    } else if v == "inline"@ {
        Some(ContentDispositionMode::Inline)
    } else {
        None
    }
}

pub fn parse_content_disposition(value: &str) -> (r: Result<ContentDispositionMode, WebError>)
    ensures
        match spec_content_disposition(value@) {
            Some(b) => r matches Ok(x) && x == b,
            None => refused_with(r, "invalid content disposition"@),
        },
{
    if str_eq(value, "attachment") {
        Ok(ContentDispositionMode::Attachment)
    } else if str_eq(value, "inline") {
        Ok(ContentDispositionMode::Inline)
    } else {
        Err(bad_request("invalid content disposition"))
    }
}

pub open spec fn spec_risky_mime_mode(v: Seq<char>) -> Option<RiskyMimeMode> {
    if v == "attachment"@ {
        Some(RiskyMimeMode::Attachment)
    } else if v == "inline_on_isolated_origin"@ {
        Some(RiskyMimeMode::InlineOnIsolatedOrigin)
    } else if v == "plaintext"@ {
        Some(RiskyMimeMode::Plaintext)
    } else {
        None
    }
}

pub fn parse_risky_mime_mode(value: &str) -> (r: Result<RiskyMimeMode, WebError>)
    ensures
        match spec_risky_mime_mode(value@) {
            Some(b) => r matches Ok(x) && x == b,
            None => refused_with(r, "invalid risky MIME mode"@),
        },
{
    if str_eq(value, "attachment") {
        Ok(RiskyMimeMode::Attachment)
    } else if str_eq(value, "inline_on_isolated_origin") {
        Ok(RiskyMimeMode::InlineOnIsolatedOrigin)
    } else if str_eq(value, "plaintext") {
        Ok(RiskyMimeMode::Plaintext)
    } else {
        Err(bad_request("invalid risky MIME mode"))
    }
}

/// The dark-mode choices the branding form accepts, compared untrimmed.
pub open spec fn spec_dark_mode_ok(v: Seq<char>) -> bool {
    v == "auto"@ || v == "light"@ || v == "dark"@
}

pub fn dark_mode_ok(value: &str) -> (b: bool)
    ensures
        b == spec_dark_mode_ok(value@),
{
    str_eq(value, "auto") || str_eq(value, "light") || str_eq(value, "dark")
}

/// What one rate-limit row of the form does to the limits: a disabled row
/// removes the action's limit, an enabled one sets it, with 10 requests per
/// 60 seconds where a number is left blank.
pub open spec fn spec_rate_limit_row(
    enabled: bool,
    requests: Option<Seq<char>>,
    window: Option<Seq<char>>,
) -> Result<Option<RateLimitConfig>, Seq<char>> {
    if !enabled {
        Ok(None)
    } else {
        match spec_optional(requests, |t| spec_parse_u32(t)) {
            Err(m) => Err(m),
            Ok(rq) => match spec_optional(window, |t| spec_parse_u64(t)) {
                Err(m) => Err(m),
                Ok(w) => Ok(
                    Some(
                        RateLimitConfig {
                            requests: match rq {
                                Some(v) => v as u32,
                                None => 10,
                            },
                            window_seconds: match w {
                                Some(v) => v as u64,
                                None => 60,
                            },
                            enabled: true,
                        },
                    ),
                ),
            },
        }
    }
}

pub fn apply_rate_limit_form(
    rate_limits: &mut Keyed<RateLimitConfig>,
    action: &str,
    enabled: bool,
    requests: Option<&str>,
    window_seconds: Option<&str>,
) -> (r: Result<(), WebError>)
    ensures
        match spec_rate_limit_row(enabled, opt_str_view(requests), opt_str_view(window_seconds)) {
            Err(m) => refused_with(r, m) && *final(rate_limits) == *old(rate_limits),
            Ok(row) => r is Ok && forall|j: Seq<char>| #[trigger]
                final(rate_limits).spec_get(j) == if j == action@ {
                    row
                } else {
                    old(rate_limits).spec_get(j)
                },
        },
{
    if !enabled {
        rate_limits.remove(action);
        return Ok(());
    }
    let rq = match parse_optional_u32(requests) {
        Ok(v) => v,
        Err(e) => {
            return Err(e);
        },
    };
    let w = match parse_optional_u64(window_seconds) {
        Ok(v) => v,
        Err(e) => {
            return Err(e);
        },
    };
    let cfg = RateLimitConfig {
        requests: match rq {
            Some(v) => v,
            None => 10,
        },
        window_seconds: match w {
            Some(v) => v,
            None => 60,
        },
        enabled: true,
    };
    rate_limits.insert(action, cfg);
    Ok(())
}

} // verus!
