//! Sign-in through an OpenID Connect provider: whether it is on, which
//! identities it admits, which role they get, and how the callback and the
//! account it lands on are decided.
use vstd::prelude::*;
use crate::delivery::{app_base_url, trim_end_char};
use crate::form_fields::refused_with;
use crate::model::{bad_request, bad_request_with, Role, WebError};
use crate::settings::FeatureConfig;
use crate::text::{
    append_str, ascii_lower, nonempty_pieces, opt_str_view, split, split_all, split_ws,
    split_whitespace, str_eq, strings_view, to_ascii_lowercase,
};
use crate::upload::{contains_ignore_case, has_ignore_case};

verus! {

/// The provider settings that sign-in reads.
#[derive(Debug)]
pub struct OidcConfig {
    pub enabled: bool,
    pub issuer_url: Option<String>,
    pub client_id: Option<String>,
    pub client_secret: Option<String>,
    pub redirect_url: Option<String>,
    pub allowed_domains: Vec<String>,
    pub allowed_groups: Vec<String>,
    pub groups_claim: Option<String>,
    pub role_claim: Option<String>,
    /// Claim values and the role names they map to, one entry per value.
    pub role_mappings: Vec<(String, String)>,
}

/// A claim of the provider's user info, as far as sign-in reads it.
#[derive(Debug)]
pub enum ClaimValue {
    /// A string claim.
    Text(String),
    /// An array claim; entries that are not strings are `None`.
    List(Vec<Option<String>>),
    /// Any other JSON value.
    Other,
}

/// What the provider says about the signed-in person; `extra` holds the other
/// claims, one entry per claim name.
#[derive(Debug)]
pub struct UserInfo {
    pub sub: Option<String>,
    pub email: Option<String>,
    pub preferred_username: Option<String>,
    pub name: Option<String>,
    pub extra: Vec<(String, ClaimValue)>,
}

/// Sign-in through the provider is on when the feature and the provider are
/// on and the provider has an issuer and a client id.
pub fn enabled(features: &FeatureConfig, oidc: &OidcConfig) -> (b: bool)
    ensures
        b == (features.oidc_login && oidc.enabled && oidc.issuer_url is Some
            && oidc.client_id is Some),
{
    features.oidc_login && oidc.enabled && oidc.issuer_url.is_some() && oidc.client_id.is_some()
}

/// The issuer URL without trailing slashes.
pub fn issuer(oidc: &OidcConfig) -> (r: Result<String, WebError>)
    ensures
        match oidc.issuer_url {
            None => refused_with(r, "OIDC issuer_url is missing"@),
            Some(u) => r matches Ok(s) && s@ == trim_end_char(u@, '/'),
        },
{
    match &oidc.issuer_url {
        None => Err(bad_request("OIDC issuer_url is missing")),
        Some(u) => Ok(app_base_url(u.as_str())),
    }
}

/// Where the provider sends the browser back: the configured URL, else the
/// callback path under the public base URL.
pub fn redirect_url(oidc: &OidcConfig, public_base_url: &str) -> (r: String)
    ensures
        r@ == match oidc.redirect_url {
            Some(u) => u@,
            None => trim_end_char(public_base_url@, '/') + "/auth/oidc/callback"@,
        },
{
    match &oidc.redirect_url {
        Some(u) => u.clone(),
        None => {
            let mut s = app_base_url(public_base_url);
            append_str(&mut s, "/auth/oidc/callback");
            s
        },
    }
}

/// The value of the first claim named `name`.
pub open spec fn claim_lookup(extra: Seq<(String, ClaimValue)>, name: Seq<char>) -> Option<ClaimValue>
    decreases extra.len(),
{
    if extra.len() == 0 {
        None
    } else if extra[0].0@ == name {
        Some(extra[0].1)
    } else {
        claim_lookup(extra.drop_first(), name)
    }
}

/// The string entries of an array claim, in order.
pub open spec fn list_strings(vs: Seq<Option<String>>) -> Seq<Seq<char>>
    decreases vs.len(),
{
    if vs.len() == 0 {
        Seq::empty()
    } else {
        let r = list_strings(vs.drop_last());
        match vs.last() {
            Some(s) => r.push(s@),
            None => r,
        }
    }
}

/// The values of a claim: the words of a string claim, the strings of an
/// array claim, nothing otherwise.
pub open spec fn spec_claim_values(userinfo: UserInfo, claim: Seq<char>) -> Seq<Seq<char>> {
    match claim_lookup(userinfo.extra@, claim) {
        Some(ClaimValue::Text(t)) => nonempty_pieces(split_ws(t@)),
        Some(ClaimValue::List(vs)) => list_strings(vs@),
        _ => Seq::empty(),
    }
}

fn find_claim<'a>(extra: &'a Vec<(String, ClaimValue)>, claim: &str) -> (r: Option<&'a ClaimValue>)
    ensures
        match r {
            Some(c) => claim_lookup(extra@, claim@) == Some(*c),
            None => claim_lookup(extra@, claim@) is None,
        },
{
    let mut i: usize = 0;
    assert(extra@.skip(0) == extra@);
    while i < extra.len()
        invariant
            i <= extra.len(),
            claim_lookup(extra@, claim@) == claim_lookup(extra@.skip(i as int), claim@),
        decreases extra.len() - i,
    {
        assert(extra@.skip(i as int)[0] == extra@[i as int]);
        assert(extra@.skip(i as int).drop_first() == extra@.skip(i + 1));
        if str_eq(extra[i].0.as_str(), claim) {
            return Some(&extra[i].1);
        }
        i += 1;
    }
    None
}

pub fn claim_values(userinfo: &UserInfo, claim: &str) -> (r: Vec<String>)
    ensures
        strings_view(r@) == spec_claim_values(*userinfo, claim@),
{
    match find_claim(&userinfo.extra, claim) {
        Some(ClaimValue::Text(t)) => split_whitespace(t.as_str()),
        Some(ClaimValue::List(vs)) => {
            let mut out: Vec<String> = Vec::new();
            let mut i: usize = 0;
            while i < vs.len()
                invariant
                    i <= vs.len(),
                    strings_view(out@) == list_strings(vs@.take(i as int)),
                decreases vs.len() - i,
            {
                assert(vs@.take(i + 1).drop_last() == vs@.take(i as int));
                if let Some(s) = &vs[i] {
                    out.push(s.clone());
                    assert(strings_view(out@) =~= list_strings(vs@.take(i as int)).push(s@));
                }
                i += 1;
            }
            assert(vs@.take(vs.len() as int) == vs@);
            out
        },
        _ => Vec::new(),
    }
}

/// The part of an email address after its last `@`, if it has one.
pub open spec fn email_domain(email: Seq<char>) -> Option<Seq<char>> {
    let parts = split(email, '@');
    if parts.len() > 1 {
        Some(parts.last())
    } else {
        None
    }
}

/// The part of an email address before its first `@`.
pub open spec fn email_local(email: Seq<char>) -> Seq<char> {
    split(email, '@')[0]
}

/// The name of the claim that holds groups.
pub open spec fn groups_claim(oidc: OidcConfig) -> Seq<char> {
    match oidc.groups_claim {
        Some(c) => c@,
        None => "groups"@,
    }
}

/// The name of the claim that holds roles.
pub open spec fn role_claim(oidc: OidcConfig) -> Seq<char> {
    match oidc.role_claim {
        Some(c) => c@,
        None => "role"@,
    }
}

fn groups_claim_name(oidc: &OidcConfig) -> (r: &str)
    ensures
        r@ == groups_claim(*oidc),
{
    match &oidc.groups_claim {
        Some(c) => c.as_str(),
        None => "groups",
    }
}

fn role_claim_name(oidc: &OidcConfig) -> (r: &str)
    ensures
        r@ == role_claim(*oidc),
{
    match &oidc.role_claim {
        Some(c) => c.as_str(),
        None => "role",
    }
}

/// How the provider's answer fares against the allowed domains and groups.
#[derive(Clone, Copy, Debug, PartialEq, Eq)]
pub enum UserinfoCheck {
    Admitted,
    NoDomain,
    Refused,
}

/// With allowed domains, the email's domain must be one of them (up to case);
/// with allowed groups, one of the person's groups must be one of them.
pub open spec fn spec_check_userinfo(oidc: OidcConfig, userinfo: UserInfo, email: Seq<char>) -> UserinfoCheck {
    let domains = strings_view(oidc.allowed_domains@);
    let allowed_groups = strings_view(oidc.allowed_groups@);
    let groups = spec_claim_values(userinfo, groups_claim(oidc));
    if domains.len() > 0 && email_domain(email) is None {
        UserinfoCheck::NoDomain
    } else if domains.len() > 0 && !has_ignore_case(domains, ascii_lower(email_domain(email)->0)) {
        UserinfoCheck::Refused
    } else if allowed_groups.len() > 0 && !(exists|i: int|
        0 <= i < groups.len() && allowed_groups.contains(#[trigger] groups[i])) {
        UserinfoCheck::Refused
    } else {
        UserinfoCheck::Admitted
    }
}

fn contains_exact(list: &Vec<String>, s: &str) -> (b: bool)
    ensures
        b == strings_view(list@).contains(s@),
{
    let mut i: usize = 0;
    while i < list.len()
        invariant
            i <= list.len(),
            forall|k: int| 0 <= k < i ==> #[trigger] strings_view(list@)[k] != s@,
        decreases list.len() - i,
    {
        if str_eq(list[i].as_str(), s) {
            assert(strings_view(list@)[i as int] == s@);
            return true;
        }
        i += 1;
    }
    false
}

fn any_allowed(groups: &Vec<String>, allowed: &Vec<String>) -> (b: bool)
    ensures
        b == exists|i: int|
            0 <= i < strings_view(groups@).len() && strings_view(allowed@).contains(
                #[trigger] strings_view(groups@)[i],
            ),
{
    let ghost gs = strings_view(groups@);
    let mut i: usize = 0;
    while i < groups.len()
        invariant
            i <= groups.len(),
            gs == strings_view(groups@),
            forall|k: int| 0 <= k < i ==> !strings_view(allowed@).contains(#[trigger] gs[k]),
        decreases groups.len() - i,
    {
        assert(gs[i as int] == groups@[i as int]@);
        if contains_exact(allowed, groups[i].as_str()) {
            return true;
        }
        i += 1;
    }
    false
}

pub fn validate_userinfo(oidc: &OidcConfig, userinfo: &UserInfo, email: &str) -> (r: Result<
    (),
    WebError,
>)
    ensures
        match spec_check_userinfo(*oidc, *userinfo, email@) {
            UserinfoCheck::Admitted => r is Ok,
            UserinfoCheck::NoDomain => refused_with(r, "OIDC email did not include a domain"@),
            UserinfoCheck::Refused => r matches Err(WebError::Forbidden),
        },
{
    if oidc.allowed_domains.len() > 0 {
        let parts = split_all(email, '@');
        if parts.len() <= 1 {
            return Err(bad_request("OIDC email did not include a domain"));
        }
        assert(strings_view(parts@).last() == parts@.last()@);
        let domain = to_ascii_lowercase(parts[parts.len() - 1].as_str());
        if !contains_ignore_case(&oidc.allowed_domains, domain.as_str()) {
            return Err(WebError::Forbidden);
        }
    }
    if oidc.allowed_groups.len() > 0 {
        let groups = claim_values(userinfo, groups_claim_name(oidc));
        if !any_allowed(&groups, &oidc.allowed_groups) {
            return Err(WebError::Forbidden);
        }
    }
    Ok(())
}

/// The role name mapped to a claim value, if any.
pub open spec fn mapping_lookup(m: Seq<(String, String)>, value: Seq<char>) -> Option<Seq<char>>
    decreases m.len(),
{
    if m.len() == 0 {
        None
    } else if m[0].0@ == value {
        Some(m[0].1@)
    } else {
        mapping_lookup(m.drop_first(), value)
    }
}

/// The highest role the claim values map to, starting from `user`; the first
/// mapping to an unknown role name is refused, naming it.
pub open spec fn spec_mapped_role(m: Seq<(String, String)>, values: Seq<Seq<char>>) -> Result<
    Role,
    Seq<char>,
>
    decreases values.len(),
{
    if values.len() == 0 {
        Ok(Role::User)
    } else {
        match spec_mapped_role(m, values.drop_last()) {
            Err(e) => Err(e),
            Ok(r) => match mapping_lookup(m, values.last()) {
                None => Ok(r),
                Some(name) => match Role::spec_parse(name) {
                    None => Err("invalid OIDC role mapping: "@ + name),
                    Some(x) => Ok(r.spec_max(x)),
                },
            },
        }
    }
}

fn find_mapping<'a>(m: &'a Vec<(String, String)>, value: &str) -> (r: Option<&'a str>)
    ensures
        opt_str_view(r) == mapping_lookup(m@, value@),
{
    let mut i: usize = 0;
    assert(m@.skip(0) == m@);
    while i < m.len()
        invariant
            i <= m.len(),
            mapping_lookup(m@, value@) == mapping_lookup(m@.skip(i as int), value@),
        decreases m.len() - i,
    {
        assert(m@.skip(i as int)[0] == m@[i as int]);
        assert(m@.skip(i as int).drop_first() == m@.skip(i + 1));
        if str_eq(m[i].0.as_str(), value) {
            return Some(m[i].1.as_str());
        }
        i += 1;
    }
    None
}

/// The role values of the role claim followed by those of the groups claim.
pub open spec fn role_values(oidc: OidcConfig, userinfo: UserInfo) -> Seq<Seq<char>> {
    spec_claim_values(userinfo, role_claim(oidc)) + spec_claim_values(userinfo, groups_claim(oidc))
}

/// Whether the claim value `value` is mapped to the role `x`.
pub open spec fn maps_to_role(m: Seq<(String, String)>, value: Seq<char>, x: Role) -> bool {
    mapping_lookup(m, value) matches Some(n) && Role::spec_parse(n) == Some(x)
}

/// Provider sign-in gives the highest mapped role: the role is at least
/// `user` and at least every role that one of the claim values maps to, and
/// it is `user` or one of those roles; so a further mapped value never lowers
/// it.
pub proof fn law_mapped_role_is_the_highest(m: Seq<(String, String)>, values: Seq<Seq<char>>, v: Seq<char>)
    ensures
        spec_mapped_role(m, values) is Ok ==> forall|i: int, x: Role|
            0 <= i < values.len() && #[trigger] maps_to_role(m, values[i], x)
                ==> spec_mapped_role(m, values)->Ok_0.spec_rank() >= x.spec_rank(),
        spec_mapped_role(m, values) is Ok ==> (spec_mapped_role(m, values)->Ok_0 == Role::User
            || exists|i: int|
            0 <= i < values.len() && #[trigger] maps_to_role(
                m,
                values[i],
                spec_mapped_role(m, values)->Ok_0,
            )),
        spec_mapped_role(m, values) is Ok && spec_mapped_role(m, values.push(v)) is Ok
            ==> spec_mapped_role(m, values.push(v))->Ok_0.spec_rank() >= spec_mapped_role(
            m,
            values,
        )->Ok_0.spec_rank(),
    decreases values.len(),
{
    if values.len() > 0 {
        let init = values.drop_last();
        law_mapped_role_is_the_highest(m, init, values.last());
        if spec_mapped_role(m, values) is Ok {
            let r = spec_mapped_role(m, values)->Ok_0;
            let r0 = spec_mapped_role(m, init)->Ok_0;
            assert(spec_mapped_role(m, init) is Ok);
            assert(r.spec_rank() >= r0.spec_rank());
            assert forall|i: int, x: Role|
                0 <= i < values.len() && #[trigger] maps_to_role(m, values[i], x) implies r.spec_rank()
                >= x.spec_rank() by {
                if i < init.len() {
                    assert(values[i] == init[i]);
                    assert(maps_to_role(m, init[i], x));
                } else {
                    assert(values[i] == values.last());
                }
            }
            if r != Role::User {
                if r == r0 {
                    let i = choose|i: int|
                        0 <= i < init.len() && #[trigger] maps_to_role(m, init[i], r0);
                    assert(values[i] == init[i]);
                    assert(maps_to_role(m, values[i], r));
                } else {
                    assert(values[values.len() - 1] == values.last());
                    assert(maps_to_role(m, values[values.len() - 1], r));
                }
            }
        }
    }
    let w = values.push(v);
    assert(w.drop_last() =~= values);
}

pub fn mapped_role(oidc: &OidcConfig, userinfo: &UserInfo) -> (r: Result<Role, WebError>)
    ensures
        match spec_mapped_role(oidc.role_mappings@, role_values(*oidc, *userinfo)) {
            Ok(role) => r matches Ok(x) && x == role,
            Err(m) => refused_with(r, m),
        },
{
    let mut values = claim_values(userinfo, role_claim_name(oidc));
    let more = claim_values(userinfo, groups_claim_name(oidc));
    let ghost first = strings_view(values@);
    let mut j: usize = 0;
    while j < more.len()
        invariant
            j <= more.len(),
            strings_view(values@) == first + strings_view(more@).take(j as int),
        decreases more.len() - j,
    {
        let ghost before = values@;
        let c = more[j].clone();
        assert(c@ == more@[j as int]@);
        values.push(c);
        assert(strings_view(values@) =~= strings_view(before).push(c@));
        assert(strings_view(more@).take(j + 1) =~= strings_view(more@).take(j as int).push(
            more@[j as int]@,
        ));
        assert(strings_view(values@) =~= first + strings_view(more@).take(j + 1));
        j += 1;
    }
    assert(strings_view(more@).take(more.len() as int) == strings_view(more@));
    let ghost vs = strings_view(values@);
    assert(vs == role_values(*oidc, *userinfo));
    let mut role = Role::User;
    let mut i: usize = 0;
    while i < values.len()
        invariant
            i <= values.len(),
            vs == strings_view(values@),
            vs == role_values(*oidc, *userinfo),
            spec_mapped_role(oidc.role_mappings@, vs.take(i as int)) == Ok::<Role, Seq<char>>(role),
        decreases values.len() - i,
    {
        assert(vs.take(i + 1).drop_last() == vs.take(i as int));
        assert(vs.take(i + 1).last() == values@[i as int]@);
        match find_mapping(&oidc.role_mappings, values[i].as_str()) {
            None => {},
            Some(name) => match Role::parse_form(name) {
                None => {
                    assert(spec_mapped_role(oidc.role_mappings@, vs.take(i + 1)) == Err::<
                        Role,
                        Seq<char>,
                    >("invalid OIDC role mapping: "@ + name@));
                    proof {
                        lemma_mapped_role_error_stays(oidc.role_mappings@, vs, i + 1);
                    }
                    assert(vs.take(vs.len() as int) == vs);
                    return Err(bad_request_with("invalid OIDC role mapping: ", name));
                },
                Some(x) => {
                    role = role.max(x);
                },
            },
        }
        i += 1;
    }
    assert(vs.take(vs.len() as int) == vs);
    Ok(role)
}

proof fn lemma_mapped_role_error_stays(m: Seq<(String, String)>, vs: Seq<Seq<char>>, i: int)
    requires
        0 <= i <= vs.len(),
        spec_mapped_role(m, vs.take(i)) is Err,
    ensures
        spec_mapped_role(m, vs) == spec_mapped_role(m, vs.take(i)),
    decreases vs.len() - i,
{
    if i < vs.len() {
        assert(vs.take(i + 1).drop_last() == vs.take(i));
        lemma_mapped_role_error_stays(m, vs, i + 1);
    } else {
        assert(vs.take(i) == vs);
    }
}

/// The name a new account is offered: the preferred username, else the name,
/// else the part of the email address before its `@`.
pub open spec fn spec_username(userinfo: UserInfo, email: Seq<char>) -> Seq<char> {
    match userinfo.preferred_username {
        Some(u) => u@,
        None => match userinfo.name {
            Some(n) => n@,
            None => email_local(email),
        },
    }
}

pub fn username(userinfo: &UserInfo, email: &str) -> (r: String)
    ensures
        r@ == spec_username(*userinfo, email@),
{
    match &userinfo.preferred_username {
        Some(u) => u.clone(),
        None => match &userinfo.name {
            Some(n) => n.clone(),
            None => {
                let parts = split_all(email, '@');
                proof {
                    crate::text::lemma_split_nonempty(email@, '@');
                }
                assert(strings_view(parts@)[0] == parts@[0]@);
                parts[0].clone()
            },
        },
    }
}

/// Characters a username may hold: ASCII letters and digits, `_` and `-`.
pub open spec fn username_char(c: char) -> bool {
    ('a' <= c && c <= 'z') || ('A' <= c && c <= 'Z') || ('0' <= c && c <= '9') || c == '_' || c
        == '-'
}

/// The characters of `s` that a username may hold, in order.
pub open spec fn username_chars(s: Seq<char>) -> Seq<char>
    decreases s.len(),
{
    if s.len() == 0 {
        Seq::empty()
    } else if username_char(s.last()) {
        username_chars(s.drop_last()).push(s.last())
    } else {
        username_chars(s.drop_last())
    }
}

fn keep_username_chars(s: &str) -> (r: String)
    ensures
        r@ == username_chars(s@),
{
    let cs = crate::text::chars_of(s);
    let mut out: Vec<char> = Vec::new();
    let mut i: usize = 0;
    while i < cs.len()
        invariant
            i <= cs.len(),
            cs@ == s@,
            out@ == username_chars(s@.take(i as int)),
        decreases cs.len() - i,
    {
        assert(s@.take(i + 1).drop_last() == s@.take(i as int));
        let c = cs[i];
        if ('a' <= c && c <= 'z') || ('A' <= c && c <= 'Z') || ('0' <= c && c <= '9') || c == '_'
            || c == '-' {
            out.push(c);
        }
        i += 1;
    }
    assert(s@.take(s@.len() as int) == s@);
    crate::text::string_of(&out)
}

/// The username a provisioned account starts from: the offered name cut down
/// to username characters, else the email's local part cut down the same way.
pub open spec fn spec_username_candidate(name: Seq<char>, email: Seq<char>) -> Seq<char> {
    if username_chars(name).len() > 0 {
        username_chars(name)
    } else {
        username_chars(email_local(email))
    }
}

pub fn username_candidate(name: &str, email: &str) -> (r: String)
    ensures
        r@ == spec_username_candidate(name@, email@),
{
    let c = keep_username_chars(name);
    if c.as_str().is_empty() {
        let parts = split_all(email, '@');
        proof {
            crate::text::lemma_split_nonempty(email@, '@');
        }
        assert(strings_view(parts@)[0] == parts@[0]@);
        keep_username_chars(parts[0].as_str())
    } else {
        c
    }
}

/// The username tried at attempt `attempt`: the candidate, then the candidate
/// with `-1`, `-2`, ... appended.
pub fn username_attempt(candidate: &str, attempt: u64) -> (r: String)
    ensures
        r@ == if attempt == 0 {
            candidate@
        } else {
            candidate@ + "-"@ + crate::numbers::int_text(attempt as int)
        },
{
    let mut s = candidate.to_owned();
    if attempt > 0 {
        append_str(&mut s, "-");
        let n = crate::numbers::u64_to_text(attempt);
        append_str(&mut s, n.as_str());
    }
    s
}

/// Whether sign-in changes an account's role to the mapped one: it does when
/// they differ, except that an owner keeps the owner role.
pub open spec fn spec_role_update_needed(current: Role, mapped: Role) -> bool {
    current != mapped && (current != Role::Owner || mapped == Role::Owner)
}

pub fn role_update_needed(current: Role, mapped: Role) -> (b: bool)
    ensures
        b == spec_role_update_needed(current, mapped),
{
    current != mapped && (current != Role::Owner || mapped == Role::Owner)
}

/// Signing in through the provider never takes the owner role away.
pub proof fn law_sign_in_keeps_owner(current: Role, mapped: Role)
    requires
        current == Role::Owner,
    ensures
        !spec_role_update_needed(current, mapped),
{
}

/// The code of a provider callback, after the provider's error, the state
/// cookie and the state parameter are checked.
pub open spec fn spec_callback_code(
    error: Option<Seq<char>>,
    state_cookie: Option<Seq<char>>,
    state: Option<Seq<char>>,
    code: Option<Seq<char>>,
) -> Result<Seq<char>, Seq<char>> {
    if error is Some {
        Err("OIDC provider returned "@ + error->0)
    } else if state_cookie is None {
        Err("missing OIDC state cookie"@)
    } else if state != state_cookie {
        Err("OIDC state mismatch"@)
    } else if code is None {
        Err("missing OIDC code"@)
    } else {
        Ok(code->0)
    }
}

pub fn callback_code(
    error: Option<&str>,
    state_cookie: Option<&str>,
    state: Option<&str>,
    code: Option<&str>,
) -> (r: Result<String, WebError>)
    ensures
        match spec_callback_code(
            opt_str_view(error),
            opt_str_view(state_cookie),
            opt_str_view(state),
            opt_str_view(code),
        ) {
            Ok(c) => r matches Ok(s) && s@ == c,
            Err(m) => refused_with(r, m),
        },
{
    if let Some(e) = error {
        return Err(bad_request_with("OIDC provider returned ", e));
    }
    let expected = match state_cookie {
        Some(s) => s,
        None => return Err(bad_request("missing OIDC state cookie")),
    };
    let matches = match state {
        Some(s) => str_eq(s, expected),
        None => false,
    };
    if !matches {
        return Err(bad_request("OIDC state mismatch"));
    }
    match code {
        Some(c) => Ok(c.to_owned()),
        None => Err(bad_request("missing OIDC code")),
    }
}

/// The email and subject the provider vouches for; both are needed.
pub fn userinfo_identity(userinfo: &UserInfo) -> (r: Result<(String, String), WebError>)
    ensures
        userinfo.email is None ==> refused_with(r, "OIDC userinfo did not include email"@),
        userinfo.email is Some && userinfo.sub is None ==> refused_with(
            r,
            "OIDC userinfo did not include subject"@,
        ),
        userinfo.email is Some && userinfo.sub is Some ==> (r matches Ok(p) && p.0@
            == userinfo.email->0@ && p.1@ == userinfo.sub->0@),
{
    let email = match &userinfo.email {
        Some(e) => e.clone(),
        None => return Err(bad_request("OIDC userinfo did not include email")),
    };
    let subject = match &userinfo.sub {
        Some(s) => s.clone(),
        None => return Err(bad_request("OIDC userinfo did not include subject")),
    };
    Ok((email, subject))
}

/// Whether the callback finishes linking an identity to the signed-in account
/// (the purpose cookie reads `link`) rather than signing in.
pub fn is_link_purpose(purpose_cookie: Option<&str>) -> (b: bool)
    ensures
        b == (purpose_cookie matches Some(p) && p@ == "link"@),
{
    match purpose_cookie {
        Some(p) => str_eq(p, "link"),
        None => false,
    }
}

/// An identity may be linked to an account unless another account holds it.
pub fn check_link_target(linked_account_id: Option<&str>, account_id: &str) -> (r: Result<
    (),
    WebError,
>)
    ensures
        (linked_account_id matches Some(o) && o@ != account_id@) ==> refused_with(
            r,
            "that OIDC identity is already linked to another account"@,
        ),
        !(linked_account_id matches Some(o) && o@ != account_id@) ==> r is Ok,
{
    match linked_account_id {
        Some(o) => if !str_eq(o, account_id) {
            Err(bad_request("that OIDC identity is already linked to another account"))
        } else {
            Ok(())
        },
        None => Ok(()),
    }
}

/// Which account a provider sign-in lands on.
#[derive(Clone, Copy, Debug, PartialEq, Eq)]
pub enum LoginResolution {
    /// The account already linked to the identity.
    Linked,
    /// The account with the same email, which has no password, linked now.
    LinkByEmail,
    /// A new account.
    Provision,
}

/// An identity already linked signs in to its account; otherwise an account
/// with the same email is linked unless it has a password (such accounts must
/// link from their account page); otherwise a new account is made.
pub fn resolve_login(identity_linked: bool, email_account_has_password: Option<bool>) -> (r: Result<
    LoginResolution,
    WebError,
>)
    ensures
        identity_linked ==> r == Ok::<LoginResolution, WebError>(LoginResolution::Linked),
        !identity_linked && email_account_has_password == Some(true) ==> refused_with(
            r,
            "existing local accounts must link OIDC from the account page before OIDC login"@,
        ),
        !identity_linked && email_account_has_password == Some(false) ==> r == Ok::<
            LoginResolution,
            WebError,
        >(LoginResolution::LinkByEmail),
        !identity_linked && email_account_has_password is None ==> r == Ok::<
            LoginResolution,
            WebError,
        >(LoginResolution::Provision),
{
    if identity_linked {
        return Ok(LoginResolution::Linked);
    }
    match email_account_has_password {
        Some(true) => Err(
            bad_request(
                "existing local accounts must link OIDC from the account page before OIDC login",
            ),
        ),
        Some(false) => Ok(LoginResolution::LinkByEmail),
        None => Ok(LoginResolution::Provision),
    }
}

/// Where the provider publishes its configuration.
pub fn discovery_url(oidc: &OidcConfig) -> (r: Result<String, WebError>)
    ensures
        match oidc.issuer_url {
            None => refused_with(r, "OIDC issuer_url is missing"@),
            Some(u) => r matches Ok(s) && s@ == trim_end_char(u@, '/')
                + "/.well-known/openid-configuration"@,
        },
{
    let mut s = match issuer(oidc) {
        Ok(s) => s,
        Err(e) => return Err(e),
    };
    append_str(&mut s, "/.well-known/openid-configuration");
    Ok(s)
}

pub open spec fn pairs_view(v: Seq<(&str, String)>) -> Seq<(Seq<char>, Seq<char>)> {
    v.map_values(|p: (&str, String)| (p.0@, p.1@))
}

fn or_empty(o: &Option<String>) -> (r: String)
    ensures
        r@ == match o {
            Some(s) => s@,
            None => Seq::<char>::empty(),
        },
{
    match o {
        Some(s) => s.clone(),
        None => String::new(),
    }
}

/// The query of the authorization request that starts a sign-in.
pub fn authorization_params(oidc: &OidcConfig, redirect: &str, state: &str, nonce: &str) -> (r: Vec<
    (&'static str, String),
>)
    ensures
        pairs_view(r@) == seq![
            ("response_type"@, "code"@),
            ("client_id"@, match oidc.client_id {
                Some(c) => c@,
                None => Seq::<char>::empty(),
            }),
            ("redirect_uri"@, redirect@),
            ("scope"@, "openid email profile"@),
            ("state"@, state@),
            ("nonce"@, nonce@),
        ],
{
    let mut r: Vec<(&'static str, String)> = Vec::new();
    r.push(("response_type", "code".to_owned()));
    r.push(("client_id", or_empty(&oidc.client_id)));
    r.push(("redirect_uri", redirect.to_owned()));
    r.push(("scope", "openid email profile".to_owned()));
    r.push(("state", state.to_owned()));
    r.push(("nonce", nonce.to_owned()));
    assert(pairs_view(r@) =~= seq![
        ("response_type"@, "code"@),
        ("client_id"@, match oidc.client_id {
            Some(c) => c@,
            None => Seq::<char>::empty(),
        }),
        ("redirect_uri"@, redirect@),
        ("scope"@, "openid email profile"@),
        ("state"@, state@),
        ("nonce"@, nonce@),
    ]);
    r
}

/// The form that exchanges an authorization code for a token; the client
/// secret goes last, when there is one.
pub fn token_request_form(oidc: &OidcConfig, code: &str, redirect: &str) -> (r: Vec<
    (&'static str, String),
>)
    ensures
        ({
            let base = seq![
                ("grant_type"@, "authorization_code"@),
                ("code"@, code@),
                ("client_id"@, match oidc.client_id {
                    Some(c) => c@,
                    None => Seq::<char>::empty(),
                }),
                ("redirect_uri"@, redirect@),
            ];
            pairs_view(r@) == match oidc.client_secret {
                Some(s) => base.push(("client_secret"@, s@)),
                None => base,
            }
        }),
{
    let mut r: Vec<(&'static str, String)> = Vec::new();
    r.push(("grant_type", "authorization_code".to_owned()));
    r.push(("code", code.to_owned()));
    r.push(("client_id", or_empty(&oidc.client_id)));
    r.push(("redirect_uri", redirect.to_owned()));
    let ghost base = pairs_view(r@);
    if let Some(s) = &oidc.client_secret {
        r.push(("client_secret", s.clone()));
        assert(pairs_view(r@) =~= base.push(("client_secret"@, s@)));
    }
    r
}

/// The provider must advertise where user info is read.
pub fn userinfo_endpoint(advertised: Option<&str>) -> (r: Result<String, WebError>)
    ensures
        match advertised {
            Some(e) => r matches Ok(s) && s@ == e@,
            None => refused_with(r, "OIDC provider did not advertise userinfo_endpoint"@),
        },
{
    match advertised {
        Some(e) => Ok(e.to_owned()),
        None => Err(bad_request("OIDC provider did not advertise userinfo_endpoint")),
    }
}

} // verus!
