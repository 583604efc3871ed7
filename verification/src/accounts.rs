//! Accounts: password sign-in and its second factor, sign-up, the mails that
//! carry links and codes, and the checks of the account and user admin pages.
use vstd::prelude::*;
use crate::delivery::{app_base_url, trim_end_char};
use crate::form_fields::refused_with;
use crate::model::{bad_request, bad_request_with, is_bad_request, WebError};
use crate::numbers::{spec_parse_i64, parse_i64};
use crate::settings::SignupMode;
use crate::text::{
    append_str, chars_of, opt_str_view, spec_nonempty, str_eq, string_of, trim, trimmed,
};

verus! {

/// Where a password sign-in goes on.
#[derive(Clone, Copy, Debug, PartialEq, Eq)]
pub enum LoginStep {
    /// A code is mailed and must be entered next.
    TwoFactor,
    /// The session starts now.
    Session,
}

/// A refused sign-in, with the reason written to the audit log.
#[derive(Debug)]
pub struct LoginRefusal {
    pub error: WebError,
    pub audit_reason: &'static str,
}

/// A password sign-in: an unknown email, an account without a local
/// password and a wrong password are all unauthorized; an unverified email
/// is refused with a message; otherwise the second factor, when it is on,
/// comes before the session.
pub fn login_outcome(
    account_found: bool,
    has_password: bool,
    password_matches: bool,
    email_verified: bool,
    two_factor_enabled: bool,
) -> (r: Result<LoginStep, LoginRefusal>)
    ensures
        !account_found ==> (r matches Err(f) && f.error is Unauthorized && f.audit_reason@
            == "unknown email"@),
        account_found && !has_password ==> (r matches Err(f) && f.error is Unauthorized
            && f.audit_reason@ == "local password unavailable"@),
        account_found && has_password && !password_matches ==> (r matches Err(f)
            && f.error is Unauthorized && f.audit_reason@ == "bad password"@),
        account_found && has_password && password_matches && !email_verified ==> (r matches Err(
            f,
        ) && is_bad_request(f.error, "email verification is required before login"@)
            && f.audit_reason@ == "email unverified"@),
        account_found && has_password && password_matches && email_verified ==> r
            == Ok::<LoginStep, LoginRefusal>(
            if two_factor_enabled {
                LoginStep::TwoFactor
            } else {
                LoginStep::Session
            },
        ),
{
    if !account_found {
        return Err(LoginRefusal { error: WebError::Unauthorized, audit_reason: "unknown email" });
    }
    if !has_password {
        return Err(
            LoginRefusal { error: WebError::Unauthorized, audit_reason: "local password unavailable" },
        );
    }
    if !password_matches {
        return Err(LoginRefusal { error: WebError::Unauthorized, audit_reason: "bad password" });
    }
    if !email_verified {
        return Err(
            LoginRefusal {
                error: bad_request("email verification is required before login"),
                audit_reason: "email unverified",
            },
        );
    }
    if two_factor_enabled {
        Ok(LoginStep::TwoFactor)
    } else {
        Ok(LoginStep::Session)
    }
}

/// A second factor is mailed, so it needs mail.
pub fn two_factor_challenge_check(smtp_enabled: bool) -> (r: Result<(), LoginRefusal>)
    ensures
        smtp_enabled ==> r is Ok,
        !smtp_enabled ==> (r matches Err(f) && is_bad_request(
            f.error,
            "two-factor email is unavailable for this instance"@,
        ) && f.audit_reason@ == "two-factor email unavailable"@),
{
    if smtp_enabled {
        Ok(())
    } else {
        Err(
            LoginRefusal {
                error: bad_request("two-factor email is unavailable for this instance"),
                audit_reason: "two-factor email unavailable",
            },
        )
    }
}

pub open spec fn upper_char(c: char) -> char {
    if 'a' <= c && c <= 'z' {
        ((c as u32) - 32) as char
    } else {
        c
    }
}

/// `s` with ASCII letters in upper case.
pub open spec fn ascii_upper(s: Seq<char>) -> Seq<char> {
    s.map_values(|c: char| upper_char(c))
}

fn upper_ascii_char(c: char) -> (r: char)
    ensures
        r == upper_char(c),
{
    if 'a' <= c && c <= 'z' {
        let v = (c as u32) - 32;
        let b: u8 = v as u8;
        b as char
    } else {
        c
    }
}

pub fn to_ascii_uppercase(s: &str) -> (r: String)
    ensures
        r@ == ascii_upper(s@),
{
    let cs = chars_of(s);
    let mut out: Vec<char> = Vec::new();
    let mut i: usize = 0;
    while i < cs.len()
        invariant
            i <= cs.len(),
            cs@ == s@,
            out@ == ascii_upper(s@.take(i as int)),
        decreases cs.len() - i,
    {
        out.push(upper_ascii_char(cs[i]));
        assert(ascii_upper(s@.take(i + 1)) =~= ascii_upper(s@.take(i as int)).push(upper_char(cs@[i as int])));
        i += 1;
    }
    assert(s@.take(cs.len() as int) == s@);
    string_of(&out)
}

/// A sign-in code as it is compared: trimmed and in upper case.
pub fn normalize_two_factor_code(code: &str) -> (r: String)
    ensures
        r@ == ascii_upper(trim(code@)),
{
    let t = trimmed(code);
    to_ascii_uppercase(t.as_str())
}

/// The body of the mail that carries a sign-in code.
pub fn two_factor_mail_body(code: &str) -> (r: String)
    ensures
        r@ == "Use this code to finish signing in:\n\n"@ + code@
            + "\n\nThe code expires in 10 minutes."@,
{
    let mut s = "Use this code to finish signing in:\n\n".to_owned();
    append_str(&mut s, code);
    append_str(&mut s, "\n\nThe code expires in 10 minutes.");
    s
}

/// The password reset link for a token.
pub fn password_reset_url(public_base_url: &str, token: &str) -> (r: String)
    ensures
        r@ == trim_end_char(public_base_url@, '/') + "/auth/password-reset/"@ + token@,
{
    let mut s = app_base_url(public_base_url);
    append_str(&mut s, "/auth/password-reset/");
    append_str(&mut s, token);
    s
}

/// The body of the password reset mail.
pub fn password_reset_mail_body(reset_url: &str) -> (r: String)
    ensures
        r@ == "Use this link to reset your password:\n\n"@ + reset_url@
            + "\n\nThe link expires in one hour."@,
{
    let mut s = "Use this link to reset your password:\n\n".to_owned();
    append_str(&mut s, reset_url);
    append_str(&mut s, "\n\nThe link expires in one hour.");
    s
}

/// The email verification link for a token.
pub fn email_verification_url(public_base_url: &str, token: &str) -> (r: String)
    ensures
        r@ == trim_end_char(public_base_url@, '/') + "/auth/verify-email/"@ + token@,
{
    let mut s = app_base_url(public_base_url);
    append_str(&mut s, "/auth/verify-email/");
    append_str(&mut s, token);
    s
}

/// The body of the email verification mail.
pub fn email_verification_mail_body(verify_url: &str) -> (r: String)
    ensures
        r@ == "Use this link to verify your email address:\n\n"@ + verify_url@
            + "\n\nThe link expires in 24 hours."@,
{
    let mut s = "Use this link to verify your email address:\n\n".to_owned();
    append_str(&mut s, verify_url);
    append_str(&mut s, "\n\nThe link expires in 24 hours.");
    s
}

/// Verification mail needs mail.
pub fn email_verification_check(smtp_enabled: bool) -> (r: Result<(), WebError>)
    ensures
        smtp_enabled ==> r is Ok,
        !smtp_enabled ==> refused_with(r, "email verification requires SMTP"@),
{
    if smtp_enabled {
        Ok(())
    } else {
        Err(bad_request("email verification requires SMTP"))
    }
}

/// Sign-up is open or by invitation; the answer says whether an invitation
/// is needed. Other modes refuse it.
pub fn signup_allowed(mode: SignupMode) -> (r: Result<bool, WebError>)
    ensures
        mode == SignupMode::Open ==> r == Ok::<bool, WebError>(false),
        mode == SignupMode::InviteOnly ==> r == Ok::<bool, WebError>(true),
        !(mode == SignupMode::Open || mode == SignupMode::InviteOnly) ==> r matches Err(
            WebError::Forbidden,
        ),
{
    match mode {
        SignupMode::Open => Ok(false),
        SignupMode::InviteOnly => Ok(true),
        SignupMode::Disabled | SignupMode::AdminCreated => Err(WebError::Forbidden),
    }
}

/// Open sign-up asks new accounts to verify their email when mail is on.
pub fn signup_requires_email_verification(mode: SignupMode, smtp_enabled: bool) -> (b: bool)
    ensures
        b == (mode == SignupMode::Open && smtp_enabled),
{
    mode == SignupMode::Open && smtp_enabled
}

/// The invitation a sign-up by invitation must carry.
pub fn signup_invite_token(mode: SignupMode, invite_token: Option<&str>) -> (r: Result<
    Option<&str>,
    WebError,
>)
    ensures
        mode != SignupMode::InviteOnly ==> r matches Ok(None),
        mode == SignupMode::InviteOnly && invite_token is None ==> refused_with(
            r,
            "invite token is required"@,
        ),
        mode == SignupMode::InviteOnly && invite_token is Some ==> (r matches Ok(Some(t))
            && t@ == invite_token->0@),
{
    match mode {
        SignupMode::InviteOnly => match invite_token {
            Some(t) => Ok(Some(t)),
            None => Err(bad_request("invite token is required")),
        },
        _ => Ok(None),
    }
}

/// The account a sign-up creates: its role, and whether it must verify its
/// email. The invitation is checked before the account exists: `invite_role`
/// is the role that the unused invitation named by the submitted token grants
/// (`None` when there is no such invitation); it is read only for sign-up by
/// invitation, where an account without a valid invitation is never created.
pub fn signup_account(mode: SignupMode, invite_role: Option<crate::model::Role>, smtp_enabled: bool) -> (r:
    Result<(crate::model::Role, bool), WebError>)
    ensures
        mode == SignupMode::Open ==> r == Ok::<(crate::model::Role, bool), WebError>(
            (crate::model::Role::User, smtp_enabled),
        ),
        mode == SignupMode::InviteOnly ==> match invite_role {
            Some(role) => r == Ok::<(crate::model::Role, bool), WebError>((role, false)),
            None => refused_with(r, "invalid invite token"@),
        },
        !(mode == SignupMode::Open || mode == SignupMode::InviteOnly) ==> r matches Err(
            WebError::Forbidden,
        ),
{
    match mode {
        SignupMode::Open => Ok((crate::model::Role::User, smtp_enabled)),
        SignupMode::InviteOnly => match invite_role {
            Some(role) => Ok((role, false)),
            None => Err(bad_request("invalid invite token")),
        },
        _ => Err(WebError::Forbidden),
    }
}

/// The current password check of the account page: accounts that sign in
/// only through the provider have none; a wrong one is unauthorized.
pub fn verify_current_password(has_password: bool, password_matches: bool) -> (r: Result<
    (),
    WebError,
>)
    ensures
        !has_password ==> refused_with(r, "OIDC-only accounts do not have a local password"@),
        has_password && !password_matches ==> r matches Err(WebError::Unauthorized),
        has_password && password_matches ==> r is Ok,
{
    if !has_password {
        return Err(bad_request("OIDC-only accounts do not have a local password"));
    }
    if !password_matches {
        return Err(WebError::Unauthorized);
    }
    Ok(())
}

/// Turning on the second factor needs mail and a verified email.
pub fn two_factor_enable_check(smtp_enabled: bool, email_verified: bool) -> (r: Result<
    (),
    WebError,
>)
    ensures
        !smtp_enabled ==> refused_with(r, "two-factor authentication requires SMTP"@),
        smtp_enabled && !email_verified ==> refused_with(
            r,
            "verify your email before enabling two-factor authentication"@,
        ),
        smtp_enabled && email_verified ==> r is Ok,
{
    if !smtp_enabled {
        return Err(bad_request("two-factor authentication requires SMTP"));
    }
    if !email_verified {
        return Err(bad_request("verify your email before enabling two-factor authentication"));
    }
    Ok(())
}

/// API tokens are managed from the account page only when the API is on.
pub fn ensure_api_enabled(api: bool) -> (r: Result<(), WebError>)
    ensures
        api ==> r is Ok,
        !api ==> r matches Err(WebError::Forbidden),
{
    if api {
        Ok(())
    } else {
        Err(WebError::Forbidden)
    }
}

/// The lifetime asked for a new token: blank means none; otherwise an `i64`.
pub open spec fn spec_token_ttl(value: Option<Seq<char>>) -> Result<Option<int>, Seq<char>> {
    match spec_nonempty(value) {
        None => Ok(None),
        Some(t) => match spec_parse_i64(t) {
            Ok(v) => Ok(Some(v)),
            Err(k) => Err("invalid token TTL seconds: "@ + k.spec_message()),
        },
    }
}

pub fn parse_token_ttl(value: Option<&str>) -> (r: Result<Option<i64>, WebError>)
    ensures
        match spec_token_ttl(opt_str_view(value)) {
            Ok(None) => r matches Ok(None),
            Ok(Some(v)) => r matches Ok(Some(x)) && x == v,
            Err(m) => refused_with(r, m),
        },
{
    let t = match crate::text::nonempty(value) {
        None => return Ok(None),
        Some(t) => t,
    };
    match parse_i64(t.as_str()) {
        Ok(v) => Ok(Some(v)),
        Err(k) => Err(bad_request_with("invalid token TTL seconds: ", k.message())),
    }
}

/// The bulk actions of the account page.
#[derive(Clone, Copy, Debug, PartialEq, Eq)]
pub enum BulkActionKind {
    Delete,
    SetVisibility,
    SetExpiry,
}

pub fn bulk_action_kind(action: &str) -> (r: Result<BulkActionKind, WebError>)
    ensures
        action@ == "delete"@ ==> r == Ok::<BulkActionKind, WebError>(BulkActionKind::Delete),
        action@ == "set_visibility"@ ==> r == Ok::<BulkActionKind, WebError>(
            BulkActionKind::SetVisibility,
        ),
        action@ == "set_expiry"@ ==> r == Ok::<BulkActionKind, WebError>(BulkActionKind::SetExpiry),
        !(action@ == "delete"@ || action@ == "set_visibility"@ || action@ == "set_expiry"@)
            ==> refused_with(r, "unknown bulk action"@),
{
    proof {
        reveal_strlit("delete");
        reveal_strlit("set_visibility");
        reveal_strlit("set_expiry");
        assert("delete"@.len() != "set_visibility"@.len());
        assert("delete"@.len() != "set_expiry"@.len());
        assert("set_visibility"@.len() != "set_expiry"@.len());
    }
    if str_eq(action, "delete") {
        Ok(BulkActionKind::Delete)
    } else if str_eq(action, "set_visibility") {
        Ok(BulkActionKind::SetVisibility)
    } else if str_eq(action, "set_expiry") {
        Ok(BulkActionKind::SetExpiry)
    } else {
        Err(bad_request("unknown bulk action"))
    }
}

/// An administrator may not disable their own account.
pub fn check_self_disable(actor_id: Option<&str>, target_id: &str, disabling: bool) -> (r: Result<
    (),
    WebError,
>)
    ensures
        (actor_id matches Some(a) && disabling && a@ == target_id@) ==> refused_with(
            r,
            "admins cannot disable themselves"@,
        ),
        !(actor_id matches Some(a) && disabling && a@ == target_id@) ==> r is Ok,
{
    if disabling {
        if let Some(a) = actor_id {
            if str_eq(a, target_id) {
                return Err(bad_request("admins cannot disable themselves"));
            }
        }
    }
    Ok(())
}

/// When an invitation expires: `hours` hours after `now`, when `hours` is
/// positive; never otherwise.
pub fn invite_expires_at(hours: Option<i64>, now: i64) -> (r: Option<i64>)
    requires
        hours is Some && hours->0 > 0 ==> hours->0 * 3600 <= i64::MAX && now + hours->0 * 3600
            <= i64::MAX,
    ensures
        r == match hours {
            Some(h) => if h > 0 {
                Some((now + h * 3600) as i64)
            } else {
                None
            },
            None => None,
        },
{
    match hours {
        Some(h) => if h > 0 {
            Some(now + h * 3600)
        } else {
            None
        },
        None => None,
    }
}

/// The audit action of enabling or disabling an account.
pub fn disable_audit_action(disabled: bool) -> (r: &'static str)
    ensures
        disabled ==> r@ == "user.disabled"@,
        !disabled ==> r@ == "user.enabled"@,
{
    if disabled {
        "user.disabled"
    } else {
        "user.enabled"
    }
}

/// A cookie as the server sets it: for the whole site, hidden from scripts,
/// sent on same-site requests and top-level navigation, secure when asked.
#[derive(Debug)]
pub struct CookieSpec {
    pub name: String,
    pub value: String,
    pub path: &'static str,
    pub http_only: bool,
    pub same_site_lax: bool,
    pub secure: bool,
    pub max_age_seconds: Option<i64>,
}

pub open spec fn site_cookie(c: CookieSpec, name: Seq<char>, value: Seq<char>, secure: bool) -> bool {
    &&& c.name@ == name
    &&& c.value@ == value
    &&& c.path@ == "/"@
    &&& c.http_only
    &&& c.same_site_lax
    &&& c.secure == secure
}

/// The session cookie; it lasts `max_age_seconds` when given.
pub fn session_cookie(name: &str, token: String, max_age_seconds: Option<i64>, secure: bool) -> (r:
    CookieSpec)
    ensures
        site_cookie(r, name@, token@, secure),
        r.max_age_seconds == max_age_seconds,
{
    CookieSpec {
        name: name.to_owned(),
        value: token,
        path: "/",
        http_only: true,
        same_site_lax: true,
        secure,
        max_age_seconds,
    }
}

/// A cookie that carries sign-in state for ten minutes.
pub fn transient_cookie(name: &str, value: String, secure: bool) -> (r: CookieSpec)
    ensures
        site_cookie(r, name@, value@, secure),
        r.max_age_seconds == Some(600i64),
{
    CookieSpec {
        name: name.to_owned(),
        value,
        path: "/",
        http_only: true,
        same_site_lax: true,
        secure,
        max_age_seconds: Some(600),
    }
}

/// The role named by an admin form; a name that is no role is refused,
/// naming it.
pub fn parse_role_field(value: &str) -> (r: Result<crate::model::Role, WebError>)
    ensures
        match crate::model::Role::spec_parse(value@) {
            Some(role) => r matches Ok(x) && x == role,
            None => refused_with(r, "invalid role: "@ + value@),
        },
{
    match crate::model::Role::parse_form(value) {
        Some(role) => Ok(role),
        None => Err(bad_request_with("invalid role: ", value)),
    }
}

} // verus!
