//! Accounts, roles, the access rules that settings name, and request errors.
use vstd::prelude::*;

verus! {

/// Account roles, from least to most privileged.
#[derive(Clone, Copy, Debug, PartialEq, Eq, Structural)]
pub enum Role {
    User,
    Moderator,
    Admin,
    Owner,
}

impl Role {
    /// The position of the role in the privilege order.
    pub open spec fn spec_rank(self) -> nat {
        match self {
            Role::User => 0,
            Role::Moderator => 1,
            Role::Admin => 2,
            Role::Owner => 3,
        }
    }

    pub fn rank(&self) -> (r: u8)
        ensures
            r as nat == self.spec_rank(),
    {
        match self {
            Role::User => 0,
            Role::Moderator => 1,
            Role::Admin => 2,
            Role::Owner => 3,
        }
    }

    /// Whether `self` is at least as privileged as `other`.
    pub open spec fn spec_at_least(self, other: Role) -> bool {
        self.spec_rank() >= other.spec_rank()
    }

    pub fn at_least(&self, other: Role) -> (b: bool)
        ensures
            b == self.spec_at_least(other),
    {
        self.rank() >= other.rank()
    }

    /// The more privileged of two roles.
    pub open spec fn spec_max(self, other: Role) -> Role {
        if self.spec_rank() >= other.spec_rank() {
            self
        } else {
            other
        }
    }

    pub fn max(self, other: Role) -> (r: Role)
        ensures
            r == self.spec_max(other),
    {
        if self.rank() >= other.rank() {
            self
        } else {
            other
        }
    }

    /// The role named by a form value.
    pub open spec fn spec_parse(value: Seq<char>) -> Option<Role> {
        if value == "user"@ {
            Some(Role::User)
        } else if value == "moderator"@ {
            Some(Role::Moderator)
        } else if value == "admin"@ {
            Some(Role::Admin)
        } else if value == "owner"@ {
            Some(Role::Owner)
        } else {
            None
        }
    }

    pub fn parse_form(value: &str) -> (r: Option<Role>)
        ensures
            r == Role::spec_parse(value@),
    {
        if crate::text::str_eq(value, "user") {
            Some(Role::User)
        } else if crate::text::str_eq(value, "moderator") {
            Some(Role::Moderator)
        } else if crate::text::str_eq(value, "admin") {
            Some(Role::Admin)
        } else if crate::text::str_eq(value, "owner") {
            Some(Role::Owner)
        } else {
            None
        }
    }
}

/// The part of an account that request logic reads.
#[derive(Debug)]
pub struct User {
    pub id: String,
    pub role: Role,
    pub is_disabled: bool,
}

/// The fields of a stored file that access rules and links read.
#[derive(Debug)]
pub struct FileItem {
    pub public_id: String,
    pub owner_user_id: Option<String>,
    pub delete_token_hash: Option<String>,
    pub visibility: String,
    pub original_filename: Option<String>,
    pub content_type: Option<String>,
    pub size_bytes: i64,
    pub image_width: Option<i64>,
    pub image_height: Option<i64>,
    /// The extracted metadata, as the JSON text it was stored as.
    pub metadata_json: Option<String>,
    pub thumbnail_hash: Option<String>,
    pub expires_at: Option<i64>,
    pub state: String,
    pub created_at: i64,
}

/// A stored paste.
#[derive(Debug)]
pub struct Paste {
    pub public_id: String,
    pub owner_user_id: Option<String>,
    pub delete_token_hash: Option<String>,
    pub title: Option<String>,
    pub syntax: Option<String>,
    pub content: String,
    pub visibility: String,
    pub expires_at: Option<i64>,
    pub state: String,
    pub created_at: i64,
}

/// Who may perform an action.
#[derive(Clone, Copy, Debug, PartialEq, Eq, Structural)]
pub enum ActionRule {
    Disabled,
    Anonymous,
    Authenticated,
    Moderator,
    Admin,
    Owner,
}

/// Whether the rule lets `user` (or an anonymous visitor) act.
pub open spec fn spec_allowed(rule: ActionRule, user: Option<&User>) -> bool {
    match rule {
        ActionRule::Disabled => false,
        ActionRule::Anonymous => true,
        ActionRule::Authenticated => user is Some,
        ActionRule::Moderator => user matches Some(u) && u.role.spec_at_least(Role::Moderator),
        ActionRule::Admin => user matches Some(u) && u.role.spec_at_least(Role::Admin),
        ActionRule::Owner => user matches Some(u) && u.role == Role::Owner,
    }
}

pub fn allowed(rule: ActionRule, user: Option<&User>) -> (b: bool)
    ensures
        b == spec_allowed(rule, user),
{
    match rule {
        ActionRule::Disabled => false,
        ActionRule::Anonymous => true,
        ActionRule::Authenticated => user.is_some(),
        ActionRule::Moderator => match user {
            Some(u) => u.role.at_least(Role::Moderator),
            None => false,
        },
        ActionRule::Admin => match user {
            Some(u) => u.role.at_least(Role::Admin),
            None => false,
        },
        ActionRule::Owner => match user {
            Some(u) => u.role == Role::Owner,
            None => false,
        },
    }
}

/// Why a request is refused; each maps to one HTTP status.
#[derive(Debug)]
pub enum WebError {
    BadRequest(String),
    Unauthorized,
    Forbidden,
    NotFound,
    PayloadTooLarge,
    TooManyRequests,
}

impl WebError {
    /// The HTTP status code of the refusal.
    pub open spec fn spec_status(&self) -> u16 {
        match self {
            WebError::BadRequest(_) => 400,
            WebError::Unauthorized => 401,
            WebError::Forbidden => 403,
            WebError::NotFound => 404,
            WebError::PayloadTooLarge => 413,
            WebError::TooManyRequests => 429,
        }
    }

    pub fn status(&self) -> (s: u16)
        ensures
            s == self.spec_status(),
    {
        match self {
            WebError::BadRequest(_) => 400,
            WebError::Unauthorized => 401,
            WebError::Forbidden => 403,
            WebError::NotFound => 404,
            WebError::PayloadTooLarge => 413,
            WebError::TooManyRequests => 429,
        }
    }
}

/// `e` is a bad request with message `msg`.
pub open spec fn is_bad_request(e: WebError, msg: Seq<char>) -> bool {
    e matches WebError::BadRequest(m) && m@ == msg
}

/// A bad request with the given message.
pub fn bad_request(msg: &str) -> (e: WebError)
    ensures
        is_bad_request(e, msg@),
{
    WebError::BadRequest(msg.to_owned())
}

/// A bad request whose message is `prefix` followed by `detail`.
pub fn bad_request_with(prefix: &str, detail: &str) -> (e: WebError)
    ensures
        is_bad_request(e, prefix@ + detail@),
{
    let mut m = prefix.to_owned();
    crate::text::append_str(&mut m, detail);
    WebError::BadRequest(m)
}

} // verus!
