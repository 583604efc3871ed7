//! Who may see, edit, delete and administer what.
use vstd::prelude::*;
use crate::crypto::{hash_token, spec_hash_token};
use crate::model::{
    allowed, bad_request, is_bad_request, spec_allowed, ActionRule, FileItem, Paste, Role, User,
    WebError,
};
use crate::settings::{DeletePolicy, FeatureConfig, PolicyConfig, RuntimeSettings};
use crate::text::{
    ascii_lower, eq_ignore_ascii_case, eq_ignore_case, opt_str_view, opt_view, split,
    split_trimmed_nonempty, str_eq, strings_view, to_ascii_lowercase, trim, trimmed,
    trimmed_nonempty,
};

verus! {

/// Whether `user` is an account with the owner role.
pub open spec fn is_owner(user: Option<&User>) -> bool {
    user matches Some(u) && u.role == Role::Owner
}

/// Whether `user` is an account of at least the admin role.
pub open spec fn is_admin(user: Option<&User>) -> bool {
    user matches Some(u) && u.role.spec_at_least(Role::Admin)
}

/// Handing out the owner role takes an owner.
pub fn role_requires_owner_actor(role: Role, user: Option<&User>) -> (b: bool)
    ensures
        b == (role == Role::Owner && !is_owner(user)),
{
    role == Role::Owner && match user {
        Some(u) => u.role != Role::Owner,
        None => true,
    }
}

/// Whether a change to `target` takes away an enabled owner: disabling it, or
/// giving it another role.
pub open spec fn spec_removes_enabled_owner(target: &User, next_role: Option<Role>, disabling: bool) -> bool {
    !target.is_disabled && (disabling || (next_role matches Some(r) && r != Role::Owner))
}

/// Whether the guard on owner accounts needs the number of enabled owners.
pub fn owner_count_needed(
    actor: Option<&User>,
    target: &User,
    next_role: Option<Role>,
    disabling: bool,
) -> (b: bool)
    ensures
        b == (target.role == Role::Owner && is_owner(actor) && spec_removes_enabled_owner(
            target,
            next_role,
            disabling,
        )),
{
    target.role == Role::Owner && match actor {
        Some(u) => u.role == Role::Owner,
        None => false,
    } && !target.is_disabled && (disabling || match next_role {
        Some(r) => r != Role::Owner,
        None => false,
    })
}

/// Whether the guard on owner accounts lets a change to `target` through.
pub open spec fn spec_owner_mutation_allowed(
    actor: Option<&User>,
    target: &User,
    next_role: Option<Role>,
    disabling: bool,
    enabled_owner_count: int,
) -> bool {
    target.role != Role::Owner || (is_owner(actor) && !(spec_removes_enabled_owner(
        target,
        next_role,
        disabling,
    ) && enabled_owner_count <= 1))
}

/// The number of enabled owners after a change to `target`, from the number
/// before it.
pub open spec fn enabled_owners_after(
    target: &User,
    next_role: Option<Role>,
    disabling: bool,
    enabled_owner_count: int,
) -> int {
    if target.role == Role::Owner && spec_removes_enabled_owner(target, next_role, disabling) {
        enabled_owner_count - 1
    } else {
        enabled_owner_count
    }
}

/// Owner accounts stay guarded: a change that the guard lets through touches
/// an owner account only when an owner makes it, and, where the count of
/// enabled owners included the target, leaves at least one enabled owner.
pub proof fn law_owner_accounts_stay_guarded(
    actor: Option<&User>,
    target: &User,
    next_role: Option<Role>,
    disabling: bool,
    enabled_owner_count: int,
)
    requires
        spec_owner_mutation_allowed(actor, target, next_role, disabling, enabled_owner_count),
    ensures
        target.role == Role::Owner ==> is_owner(actor),
        target.role == Role::Owner && !target.is_disabled && enabled_owner_count >= 1
            ==> enabled_owners_after(target, next_role, disabling, enabled_owner_count) >= 1,
{
}

/// Only an owner may change an owner account, and the last enabled owner can
/// neither be disabled nor lose the role. `enabled_owner_count` is the number
/// of enabled owner accounts; it is read only where `owner_count_needed` holds.
pub fn ensure_owner_account_mutation_allowed(
    actor: Option<&User>,
    target: &User,
    next_role: Option<Role>,
    disabling: bool,
    enabled_owner_count: i64,
) -> (r: Result<(), WebError>)
    ensures
        r is Ok <==> spec_owner_mutation_allowed(
            actor,
            target,
            next_role,
            disabling,
            enabled_owner_count as int,
        ),
        target.role != Role::Owner ==> r is Ok,
        target.role == Role::Owner && !is_owner(actor) ==> r matches Err(WebError::Forbidden),
        target.role == Role::Owner && is_owner(actor) ==> if spec_removes_enabled_owner(
            target,
            next_role,
            disabling,
        ) && enabled_owner_count <= 1 {
            r matches Err(e) && is_bad_request(e, "cannot remove the last enabled owner"@)
        } else {
            r is Ok
        },
{
    if target.role != Role::Owner {
        return Ok(());
    }
    let actor_is_owner = match actor {
        Some(u) => u.role == Role::Owner,
        None => false,
    };
    if !actor_is_owner {
        return Err(WebError::Forbidden);
    }
    if owner_count_needed(actor, target, next_role, disabling) && enabled_owner_count <= 1 {
        return Err(bad_request("cannot remove the last enabled owner"));
    }
    Ok(())
}

/// Whether an anonymous upload gets a delete token under the delete policy.
pub open spec fn spec_issues_delete_token(policy: PolicyConfig, user: Option<&User>) -> bool {
    user is None && (policy.delete_policy == DeletePolicy::DeleteTokens || policy.delete_policy
        == DeletePolicy::ClaimLater)
}

/// The delete token handed to an anonymous uploader: `fresh_token` (a new
/// random secret) when the delete policy issues tokens, else none.
pub fn anonymous_delete_token(
    settings: &RuntimeSettings,
    user: Option<&User>,
    fresh_token: String,
) -> (r: Option<String>)
    ensures
        opt_view(r) == if spec_issues_delete_token(settings.policy, user) {
            Some(fresh_token@)
        } else {
            None
        },
{
    if user.is_some() {
        return None;
    }
    match settings.policy.delete_policy {
        DeletePolicy::DeleteTokens | DeletePolicy::ClaimLater => Some(fresh_token),
        DeletePolicy::Disabled | DeletePolicy::NoAnonymousDelete => None,
    }
}

/// An admin may delete anything; another account may delete what it owns when
/// the policy lets it.
pub open spec fn spec_user_can_delete_owned(
    policy: PolicyConfig,
    user: Option<&User>,
    owner_user_id: Option<Seq<char>>,
) -> bool {
    match user {
        None => false,
        Some(u) => u.role.spec_at_least(Role::Admin) || (owner_user_id == Some(u.id@)
            && spec_allowed(policy.delete_own_item, user) && policy.delete_own_item
            != ActionRule::Disabled),
    }
}

pub fn user_can_delete_owned(
    settings: &RuntimeSettings,
    user: Option<&User>,
    owner_user_id: Option<&str>,
) -> (b: bool)
    ensures
        b == spec_user_can_delete_owned(settings.policy, user, opt_str_view(owner_user_id)),
{
    let u = match user {
        Some(u) => u,
        None => return false,
    };
    if u.role.at_least(Role::Admin) {
        return true;
    }
    let owns = match owner_user_id {
        Some(o) => str_eq(o, u.id.as_str()),
        None => false,
    };
    owns && allowed(settings.policy.delete_own_item, user) && settings.policy.delete_own_item
        != ActionRule::Disabled
}

/// A delete token works when the policy issues tokens and its hash is the
/// stored one.
pub open spec fn spec_token_can_delete(
    policy: PolicyConfig,
    provided: Option<Seq<char>>,
    stored_hash: Option<Seq<char>>,
) -> bool {
    (policy.delete_policy == DeletePolicy::DeleteTokens || policy.delete_policy
        == DeletePolicy::ClaimLater) && provided is Some && stored_hash is Some && spec_hash_token(
        provided->0,
    ) == stored_hash->0
}

pub fn token_can_delete(
    settings: &RuntimeSettings,
    provided_token: Option<&str>,
    stored_hash: Option<&str>,
) -> (b: bool)
    ensures
        b == spec_token_can_delete(
            settings.policy,
            opt_str_view(provided_token),
            opt_str_view(stored_hash),
        ),
{
    match settings.policy.delete_policy {
        DeletePolicy::DeleteTokens | DeletePolicy::ClaimLater => {},
        DeletePolicy::Disabled | DeletePolicy::NoAnonymousDelete => return false,
    }
    match (provided_token, stored_hash) {
        (Some(provided), Some(stored)) => {
            let h = hash_token(provided);
            str_eq(h.as_str(), stored)
        },
        _ => false,
    }
}

/// Whether a delete request on an item with this owner and token hash goes through.
pub open spec fn spec_may_delete(
    policy: PolicyConfig,
    user: Option<&User>,
    owner_user_id: Option<Seq<char>>,
    stored_hash: Option<Seq<char>>,
    provided: Option<Seq<char>>,
) -> bool {
    spec_user_can_delete_owned(policy, user, owner_user_id) || spec_token_can_delete(
        policy,
        provided,
        stored_hash,
    )
}

/// The delete token an anonymous uploader is handed deletes the item: stored
/// as its hash, it passes the token check whenever the policy issued it.
pub proof fn law_issued_delete_token_deletes(
    policy: PolicyConfig,
    owner_user_id: Option<Seq<char>>,
    token: Seq<char>,
)
    requires
        spec_issues_delete_token(policy, None),
    ensures
        spec_may_delete(policy, None, owner_user_id, Some(spec_hash_token(token)), Some(token)),
{
}

fn authorize_delete(
    settings: &RuntimeSettings,
    user: Option<&User>,
    owner_user_id: &Option<String>,
    stored_hash: &Option<String>,
    provided_token: Option<&str>,
) -> (r: Result<(), WebError>)
    ensures
        r is Ok <== spec_may_delete(
            settings.policy,
            user,
            opt_view(*owner_user_id),
            opt_view(*stored_hash),
            opt_str_view(provided_token),
        ),
        r is Ok ==> spec_may_delete(
            settings.policy,
            user,
            opt_view(*owner_user_id),
            opt_view(*stored_hash),
            opt_str_view(provided_token),
        ),
        r is Err ==> r matches Err(WebError::Forbidden),
{
    let owner = match owner_user_id {
        Some(o) => Some(o.as_str()),
        None => None,
    };
    if user_can_delete_owned(settings, user, owner) {
        return Ok(());
    }
    let stored = match stored_hash {
        Some(h) => Some(h.as_str()),
        None => None,
    };
    if token_can_delete(settings, provided_token, stored) {
        return Ok(());
    }
    Err(WebError::Forbidden)
}

/// A file may be deleted by its owner (as the policy allows), by an admin, or
/// with its delete token; anyone else is refused.
pub fn authorize_file_delete(
    settings: &RuntimeSettings,
    user: Option<&User>,
    file: &FileItem,
    provided_token: Option<&str>,
) -> (r: Result<(), WebError>)
    ensures
        r is Ok <==> spec_may_delete(
            settings.policy,
            user,
            opt_view(file.owner_user_id),
            opt_view(file.delete_token_hash),
            opt_str_view(provided_token),
        ),
        r is Err ==> r matches Err(WebError::Forbidden),
{
    authorize_delete(settings, user, &file.owner_user_id, &file.delete_token_hash, provided_token)
}

/// A paste may be deleted by its owner (as the policy allows), by an admin, or
/// with its delete token; anyone else is refused.
pub fn authorize_paste_delete(
    settings: &RuntimeSettings,
    user: Option<&User>,
    paste: &Paste,
    provided_token: Option<&str>,
) -> (r: Result<(), WebError>)
    ensures
        r is Ok <==> spec_may_delete(
            settings.policy,
            user,
            opt_view(paste.owner_user_id),
            opt_view(paste.delete_token_hash),
            opt_str_view(provided_token),
        ),
        r is Err ==> r matches Err(WebError::Forbidden),
{
    authorize_delete(settings, user, &paste.owner_user_id, &paste.delete_token_hash, provided_token)
}

/// Whether `user` may edit `paste`: editing is on and the user is an admin or
/// the paste's owner.
pub open spec fn spec_can_edit_paste(features: FeatureConfig, user: Option<&User>, owner: Option<Seq<char>>) -> bool {
    features.paste_editing && match user {
        None => false,
        Some(u) => u.role.spec_at_least(Role::Admin) || owner == Some(u.id@),
    }
}

pub fn can_edit_paste(settings: &RuntimeSettings, user: Option<&User>, paste: &Paste) -> (b: bool)
    ensures
        b == spec_can_edit_paste(settings.features, user, opt_view(paste.owner_user_id)),
{
    if !settings.features.paste_editing {
        return false;
    }
    let u = match user {
        Some(u) => u,
        None => return false,
    };
    u.role.at_least(Role::Admin) || match &paste.owner_user_id {
        Some(o) => str_eq(o.as_str(), u.id.as_str()),
        None => false,
    }
}

/// Whether an item with this owner and visibility may be shown to `user`.
pub open spec fn spec_may_view(
    policy: PolicyConfig,
    user: Option<&User>,
    owner_user_id: Option<Seq<char>>,
    visibility: Seq<char>,
) -> bool {
    if is_admin(user) {
        true
    } else if visibility == "private"@ {
        user matches Some(u) && owner_user_id == Some(u.id@)
    } else {
        spec_allowed(policy.view_item, user)
    }
}

/// Admins see everything; a private item is shown to its owner alone; anything
/// else to whoever the view rule admits.
pub fn authorize_item_view(
    settings: &RuntimeSettings,
    user: Option<&User>,
    owner_user_id: Option<&str>,
    visibility: &str,
) -> (r: Result<(), WebError>)
    ensures
        r is Ok <==> spec_may_view(settings.policy, user, opt_str_view(owner_user_id), visibility@),
        r is Err ==> r matches Err(WebError::Forbidden),
{
    let admin = match user {
        Some(u) => u.role.at_least(Role::Admin),
        None => false,
    };
    if admin {
        return Ok(());
    }
    if str_eq(visibility, "private") {
        let u = match user {
            Some(u) => u,
            None => return Err(WebError::Forbidden),
        };
        let owns = match owner_user_id {
            Some(o) => str_eq(o, u.id.as_str()),
            None => false,
        };
        if owns {
            return Ok(());
        }
        return Err(WebError::Forbidden);
    }
    if allowed(settings.policy.view_item, user) {
        Ok(())
    } else {
        Err(WebError::Forbidden)
    }
}

/// An upload session with an owner may be continued by that owner or an admin;
/// one without an owner by anyone.
pub fn authorize_tus_session_user(current_user: Option<&User>, owner_user_id: Option<&str>) -> (r:
    Result<(), WebError>)
    ensures
        r is Ok <==> match opt_str_view(owner_user_id) {
            None => true,
            Some(o) => current_user matches Some(u) && (u.id@ == o || u.role.spec_at_least(
                Role::Admin,
            )),
        },
        r is Err ==> r matches Err(WebError::Forbidden),
{
    let owner = match owner_user_id {
        Some(o) => o,
        None => return Ok(()),
    };
    let u = match current_user {
        Some(u) => u,
        None => return Err(WebError::Forbidden),
    };
    if str_eq(u.id.as_str(), owner) || u.role.at_least(Role::Admin) {
        Ok(())
    } else {
        Err(WebError::Forbidden)
    }
}

/// A caller holding `*` may grant anything; any other caller only scopes it
/// holds itself, and never `*`.
pub open spec fn spec_scopes_allowed(caller: Seq<Seq<char>>, requested: Seq<Seq<char>>) -> bool {
    caller.contains("*"@) || forall|i: int|
        0 <= i < requested.len() ==> #[trigger] requested[i] != "*"@ && caller.contains(
            requested[i],
        )
}

fn contains_str(v: &[String], s: &str) -> (b: bool)
    ensures
        b == strings_view(v@).contains(s@),
{
    let mut i: usize = 0;
    while i < v.len()
        invariant
            i <= v.len(),
            forall|k: int| 0 <= k < i ==> #[trigger] strings_view(v@)[k] != s@,
        decreases v.len() - i,
    {
        if str_eq(v[i].as_str(), s) {
            assert(strings_view(v@)[i as int] == s@);
            return true;
        }
        i += 1;
    }
    false
}

pub fn requested_scopes_allowed(caller_scopes: &[String], requested_scopes: &[String]) -> (b: bool)
    ensures
        b == spec_scopes_allowed(strings_view(caller_scopes@), strings_view(requested_scopes@)),
{
    if contains_str(caller_scopes, "*") {
        return true;
    }
    let ghost req = strings_view(requested_scopes@);
    let mut i: usize = 0;
    while i < requested_scopes.len()
        invariant
            i <= requested_scopes.len(),
            req == strings_view(requested_scopes@),
            !strings_view(caller_scopes@).contains("*"@),
            forall|k: int|
                0 <= k < i ==> #[trigger] req[k] != "*"@ && strings_view(caller_scopes@).contains(
                    req[k],
                ),
        decreases requested_scopes.len() - i,
    {
        let r = requested_scopes[i].as_str();
        assert(req[i as int] == r@);
        if str_eq(r, "*") || !contains_str(caller_scopes, r) {
            assert(!(req[i as int] != "*"@ && strings_view(caller_scopes@).contains(req[i as int])));
            return false;
        }
        i += 1;
    }
    true
}

/// Scopes never escalate: whatever a caller without `*` may grant, it holds itself.
pub proof fn law_scopes_never_escalate(caller: Seq<Seq<char>>, requested: Seq<Seq<char>>, i: int)
    requires
        spec_scopes_allowed(caller, requested),
        !caller.contains("*"@),
        0 <= i < requested.len(),
    ensures
        caller.contains(requested[i]),
        requested[i] != "*"@,
{
}

/// A caller may always hand on scopes it holds, as long as they are not `*`.
pub proof fn law_held_scopes_may_be_granted(caller: Seq<Seq<char>>, requested: Seq<Seq<char>>)
    requires
        forall|i: int| 0 <= i < requested.len() ==> #[trigger] caller.contains(requested[i]),
        !requested.contains("*"@),
    ensures
        spec_scopes_allowed(caller, requested),
{
    assert forall|i: int| 0 <= i < requested.len() implies #[trigger] requested[i] != "*"@
        && caller.contains(requested[i]) by {
        if requested[i] == "*"@ {
            assert(requested.contains("*"@));
        }
    }
}

/// Account pages need accounts to be on.
pub fn ensure_accounts_enabled(settings: &RuntimeSettings) -> (r: Result<(), WebError>)
    ensures
        r is Ok <==> settings.features.accounts,
        r is Err ==> r matches Err(WebError::Forbidden),
{
    if settings.features.accounts {
        Ok(())
    } else {
        Err(WebError::Forbidden)
    }
}

/// Password logins need accounts and local login to be on.
pub fn ensure_local_accounts_enabled(settings: &RuntimeSettings) -> (r: Result<(), WebError>)
    ensures
        r is Ok <==> settings.features.accounts && settings.features.local_login,
        r is Err ==> r matches Err(WebError::Forbidden),
{
    if settings.features.accounts && settings.features.local_login {
        Ok(())
    } else {
        Err(WebError::Forbidden)
    }
}

/// The double-submit check: the form's token, trimmed, must equal the cookie.
pub fn validate_csrf(cookie: Option<&str>, submitted: Option<&str>) -> (r: Result<(), WebError>)
    ensures
        cookie is None ==> (r matches Err(e) && is_bad_request(e, "missing CSRF cookie"@)),
        cookie is Some && (submitted is None || trim(submitted->0@).len() == 0) ==> (r matches Err(
            e,
        ) && is_bad_request(e, "missing CSRF token"@)),
        cookie is Some && submitted is Some && trim(submitted->0@).len() != 0 ==> if trim(
            submitted->0@,
        ) == cookie->0@ {
            r is Ok
        } else {
            r matches Err(WebError::Forbidden)
        },
{
    let expected = match cookie {
        Some(c) => c,
        None => return Err(bad_request("missing CSRF cookie")),
    };
    let token = match submitted {
        Some(s) => trimmed(s),
        None => return Err(bad_request("missing CSRF token")),
    };
    if token.as_str().is_empty() {
        return Err(bad_request("missing CSRF token"));
    }
    if str_eq(token.as_str(), expected) {
        Ok(())
    } else {
        Err(WebError::Forbidden)
    }
}

/// The scopes named in a comma separated list, trimmed, empty ones dropped.
pub fn parse_scopes(input: &str) -> (r: Vec<String>)
    ensures
        strings_view(r@) == trimmed_nonempty(split(input@, ',')),
{
    split_trimmed_nonempty(input, ',')
}

/// The visibility a new item asks for.
pub open spec fn spec_requested_visibility(public_browse: bool, value: Option<Seq<char>>) -> Result<
    Seq<char>,
    Seq<char>,
> {
    let v = match value {
        Some(v) => trim(v),
        None => Seq::empty(),
    };
    if v.len() == 0 || v == "unlisted"@ {
        Ok("unlisted"@)
    } else if v == "public"@ {
        if public_browse {
            Ok("public"@)
        } else {
            Err("public visibility requires public browse to be enabled"@)
        }
    } else if v == "private"@ {
        Ok("private"@)
    } else {
        Err("invalid visibility"@)
    }
}

pub fn requested_visibility(settings: &RuntimeSettings, value: Option<&str>) -> (r: Result<
    &'static str,
    WebError,
>)
    ensures
        match spec_requested_visibility(settings.features.public_browse, opt_str_view(value)) {
            Ok(v) => r matches Ok(s) && s@ == v,
            Err(m) => r matches Err(e) && is_bad_request(e, m),
        },
{
    let v = match value {
        Some(v) => trimmed(v),
        None => String::new(),
    };
    proof {
        reveal_strlit("unlisted");
        reveal_strlit("public");
        reveal_strlit("private");
    }
    if v.as_str().is_empty() || str_eq(v.as_str(), "unlisted") {
        Ok("unlisted")
    } else if str_eq(v.as_str(), "public") {
        if settings.features.public_browse {
            Ok("public")
        } else {
            Err(bad_request("public visibility requires public browse to be enabled"))
        }
    } else if str_eq(v.as_str(), "private") {
        Ok("private")
    } else {
        Err(bad_request("invalid visibility"))
    }
}

/// The canonical name of a syntax alias; other names stay as they are.
pub open spec fn syntax_alias(s: Seq<char>) -> Seq<char> {
    if s == "txt"@ || s == "plain"@ {
        "text"@
    } else if s == "js"@ || s == "mjs"@ || s == "cjs"@ {
        "javascript"@
    } else if s == "ts"@ {
        "typescript"@
    } else if s == "py"@ {
        "python"@
    } else if s == "rb"@ {
        "ruby"@
    } else if s == "rs"@ {
        "rust"@
    } else if s == "sh"@ || s == "shell"@ {
        "bash"@
    } else if s == "yml"@ {
        "yaml"@
    } else if s == "md"@ {
        "markdown"@
    } else if s == "htm"@ {
        "html"@
    } else {
        s
    }
}

/// The syntax of a paste: the trimmed, lower cased name with aliases resolved;
/// none when it is empty.
pub open spec fn spec_normalize_syntax(input: Option<Seq<char>>) -> Option<Seq<char>> {
    match input {
        None => None,
        Some(v) => {
            let s = ascii_lower(trim(v));
            if s.len() == 0 {
                None
            } else {
                Some(syntax_alias(s))
            }
        },
    }
}

/// The canonical names that aliases resolve to are no aliases themselves.
proof fn lemma_alias_canonical(s: Seq<char>)
    ensures
        syntax_alias(syntax_alias(s)) == syntax_alias(s),
        syntax_alias(s) != s ==> syntax_alias(s).len() > 0 && ascii_lower(syntax_alias(s))
            == syntax_alias(s) && trim(syntax_alias(s)) == syntax_alias(s),
{
    reveal_strlit("txt");
    reveal_strlit("plain");
    reveal_strlit("js");
    reveal_strlit("mjs");
    reveal_strlit("cjs");
    reveal_strlit("ts");
    reveal_strlit("py");
    reveal_strlit("rb");
    reveal_strlit("rs");
    reveal_strlit("sh");
    reveal_strlit("shell");
    reveal_strlit("yml");
    reveal_strlit("md");
    reveal_strlit("htm");
    reveal_strlit("text");
    reveal_strlit("javascript");
    reveal_strlit("typescript");
    reveal_strlit("python");
    reveal_strlit("ruby");
    reveal_strlit("rust");
    reveal_strlit("bash");
    reveal_strlit("yaml");
    reveal_strlit("markdown");
    reveal_strlit("html");
    let a = syntax_alias(s);
    if a != s {
        assert(ascii_lower(a) =~= a);
        crate::text::lemma_trim_fixed(a);
    }
}

/// Normalizing a syntax name that was normalized already changes nothing, so
/// a paste saved again keeps its syntax.
pub proof fn law_syntax_normalizing_is_idempotent(input: Option<Seq<char>>)
    ensures
        spec_normalize_syntax(spec_normalize_syntax(input)) == spec_normalize_syntax(input),
{
    if let Some(v) = input {
        let t = trim(v);
        let s = ascii_lower(t);
        if s.len() > 0 {
            lemma_alias_canonical(s);
            let r = syntax_alias(s);
            if r == s {
                crate::text::lemma_trim_ends(v);
                crate::text::lemma_lower_char(t[0]);
                crate::text::lemma_lower_char(t.last());
                assert(s[0] == crate::text::lower_char(t[0]));
                assert(s.last() == crate::text::lower_char(t.last()));
                crate::text::lemma_trim_fixed(s);
                assert forall|k: int| 0 <= k < s.len() implies #[trigger] ascii_lower(s)[k] == s[k] by {
                    crate::text::lemma_lower_char(t[k]);
                }
                assert(ascii_lower(s) =~= s);
            }
        }
    }
}

fn alias_of(s: &str) -> (r: Option<&'static str>)
    ensures
        r matches Some(a) ==> a@ == syntax_alias(s@),
        r is None ==> syntax_alias(s@) == s@,
{
    if str_eq(s, "txt") || str_eq(s, "plain") {
        Some("text")
    } else if str_eq(s, "js") || str_eq(s, "mjs") || str_eq(s, "cjs") {
        Some("javascript")
    } else if str_eq(s, "ts") {
        Some("typescript")
    } else if str_eq(s, "py") {
        Some("python")
    } else if str_eq(s, "rb") {
        Some("ruby")
    } else if str_eq(s, "rs") {
        Some("rust")
    } else if str_eq(s, "sh") || str_eq(s, "shell") {
        Some("bash")
    } else if str_eq(s, "yml") {
        Some("yaml")
    } else if str_eq(s, "md") {
        Some("markdown")
    } else if str_eq(s, "htm") {
        Some("html")
    } else {
        None
    }
}

pub fn normalize_syntax(input: Option<&str>) -> (r: Option<String>)
    ensures
        opt_view(r) == spec_normalize_syntax(opt_str_view(input)),
{
    let v = match input {
        Some(v) => v,
        None => return None,
    };
    let t = trimmed(v);
    let s = to_ascii_lowercase(t.as_str());
    if s.as_str().is_empty() {
        return None;
    }
    match alias_of(s.as_str()) {
        Some(a) => Some(a.to_owned()),
        None => Some(s),
    }
}

/// Whether the request came from htmx: its `HX-Request` header reads `true`
/// in any case.
pub fn htmx_request(hx_request: Option<&str>) -> (b: bool)
    ensures
        b == (hx_request matches Some(v) && eq_ignore_case(v@, "true"@)),
{
    match hx_request {
        Some(v) => eq_ignore_ascii_case(v, "true"),
        None => false,
    }
}

/// The caller of an admin API route: an account of at least `minimum_role`.
pub fn api_role_user(user: Option<User>, minimum_role: Role) -> (r: Result<User, WebError>)
    ensures
        user is None ==> r matches Err(WebError::Unauthorized),
        user matches Some(u) ==> if u.role.spec_at_least(minimum_role) {
            r matches Ok(v) && v == u
        } else {
            r matches Err(WebError::Forbidden)
        },
{
    match user {
        None => Err(WebError::Unauthorized),
        Some(u) => if u.role.at_least(minimum_role) {
            Ok(u)
        } else {
            Err(WebError::Forbidden)
        },
    }
}

/// Who an API request acts for, as far as the bearer token decides.
#[derive(Clone, Copy, Debug, PartialEq, Eq)]
pub enum ApiCaller {
    /// The account the bearer token belongs to.
    TokenUser,
    /// Nobody: the request came without a token and anonymous use is allowed.
    Anonymous,
}

/// The API needs its feature; a bearer token must name an account (with the
/// required scope) that may use the API; without a token the request goes on
/// anonymously when anonymous use is allowed. `token_user_found` says
/// whether the token named such an account, `may_use_api` whether the caller
/// (that account, or nobody) may use the API.
pub fn api_caller(
    api_enabled: bool,
    bearer_present: bool,
    token_user_found: bool,
    may_use_api: bool,
) -> (r: Result<ApiCaller, WebError>)
    ensures
        !api_enabled ==> r matches Err(WebError::Forbidden),
        api_enabled && bearer_present && !token_user_found ==> r matches Err(
            WebError::Unauthorized,
        ),
        api_enabled && bearer_present && token_user_found ==> if may_use_api {
            r == Ok::<ApiCaller, WebError>(ApiCaller::TokenUser)
        } else {
            r matches Err(WebError::Forbidden)
        },
        api_enabled && !bearer_present ==> if may_use_api {
            r == Ok::<ApiCaller, WebError>(ApiCaller::Anonymous)
        } else {
            r matches Err(WebError::Unauthorized)
        },
{
    if !api_enabled {
        return Err(WebError::Forbidden);
    }
    if bearer_present {
        if !token_user_found {
            return Err(WebError::Unauthorized);
        }
        if may_use_api {
            return Ok(ApiCaller::TokenUser);
        }
        return Err(WebError::Forbidden);
    }
    if may_use_api {
        Ok(ApiCaller::Anonymous)
    } else {
        Err(WebError::Unauthorized)
    }
}

/// The key a session cookie is looked up by: the hash of its value.
pub fn session_lookup_key(cookie: Option<&str>) -> (r: Option<String>)
    ensures
        opt_view(r) == match cookie {
            Some(c) => Some(spec_hash_token(c@)),
            None => None,
        },
{
    match cookie {
        Some(c) => Some(hash_token(c)),
        None => None,
    }
}

/// Reports need their feature; without it the report pages are not found.
pub fn ensure_reports_enabled(settings: &RuntimeSettings) -> (r: Result<(), WebError>)
    ensures
        settings.features.reports ==> r is Ok,
        !settings.features.reports ==> r matches Err(WebError::NotFound),
{
    if settings.features.reports {
        Ok(())
    } else {
        Err(WebError::NotFound)
    }
}

/// Claiming an anonymous item takes a signed-in account that the claim rule
/// admits.
pub fn check_claim_allowed(settings: &RuntimeSettings, user: Option<&User>) -> (r: Result<
    (),
    WebError,
>)
    ensures
        user is None ==> r matches Err(WebError::Unauthorized),
        user is Some ==> if spec_allowed(settings.policy.claim_anonymous_item, user) {
            r is Ok
        } else {
            r matches Err(WebError::Forbidden)
        },
{
    if user.is_none() {
        return Err(WebError::Unauthorized);
    }
    if allowed(settings.policy.claim_anonymous_item, user) {
        Ok(())
    } else {
        Err(WebError::Forbidden)
    }
}

} // verus!
