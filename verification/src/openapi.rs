//! The contract of the JSON API: the routes and methods it answers, who may
//! call each and with which scope, the parameters and bodies they take, and
//! the answers they give. Every path parameter is declared, every operation
//! names a success and a refusal, and every schema it names is declared.
use vstd::prelude::*;
use crate::text::append_str;

verus! {

/// The routes of the API.
#[derive(Clone, Copy, Debug, PartialEq, Eq, Structural)]
pub enum Route {
    Files,
    File,
    Pastes,
    Paste,
    MyFiles,
    MyPastes,
    Claim,
    Reports,
    Tokens,
    Token,
    AdminReports,
    AdminReport,
    AdminItem,
    AdminSearch,
}

#[derive(Clone, Copy, Debug, PartialEq, Eq, Structural)]
pub enum Method {
    Get,
    Post,
    Patch,
    Delete,
}

/// A piece of a route's path: text, or a `{name}` parameter.
#[derive(Clone, Copy, Debug)]
pub enum Segment {
    Lit(&'static str),
    Param(&'static str),
}

#[derive(Clone, Copy, Debug, PartialEq, Eq, Structural)]
pub enum ParamIn {
    Path,
    Header,
    Query,
}

#[derive(Clone, Copy, Debug, PartialEq, Eq, Structural)]
pub enum ParamKind {
    Text,
    Integer,
    Boolean,
}

/// A parameter of an operation.
#[derive(Clone, Copy, Debug)]
pub struct ApiParameter {
    pub name: &'static str,
    pub location: ParamIn,
    pub required: bool,
    pub description: &'static str,
    pub kind: ParamKind,
}

/// The schemas of the API's bodies.
#[derive(Clone, Copy, Debug, PartialEq, Eq, Structural)]
pub enum Schema {
    Error,
    FileUpload,
    ApiUploadResponse,
    FileItem,
    PasteItem,
    FileItemsResponse,
    PasteItemsResponse,
    TokenItemsResponse,
    ReportItemsResponse,
    PasteRequest,
    PasteCreatedResponse,
    DeletedResponse,
    ClaimedResponse,
    ReportedResponse,
    RevokedResponse,
    UpdatedResponse,
    ClaimRequest,
    ReportRequest,
    ReportActionRequest,
    AdminItemUpdate,
    TokenCreateRequest,
    TokenCreatedResponse,
    TokenSummary,
    Report,
    SearchResponse,
}

/// The body an operation takes.
#[derive(Clone, Copy, Debug, PartialEq, Eq, Structural)]
pub enum RequestBody {
    Multipart(Schema),
    Json(Schema),
}

/// An answer of an operation: its status, description and body schema.
#[derive(Clone, Copy, Debug)]
pub struct ApiResponse {
    pub status: u16,
    pub description: &'static str,
    pub schema: Schema,
}

/// The operations of the API.
#[derive(Clone, Copy, Debug, PartialEq, Eq, Structural)]
pub enum Operation {
    UploadFile,
    DeleteFile,
    CreatePaste,
    DeletePaste,
    ListMyFiles,
    ListMyPastes,
    ClaimItem,
    CreateReport,
    ListTokens,
    CreateToken,
    RevokeToken,
    ListReports,
    UpdateReport,
    UpdateItem,
    SearchItems,
}

/// Every operation, in the order the contract lists them.
pub open spec fn spec_operations() -> Seq<Operation> {
    seq![
        Operation::UploadFile,
        Operation::DeleteFile,
        Operation::CreatePaste,
        Operation::DeletePaste,
        Operation::ListMyFiles,
        Operation::ListMyPastes,
        Operation::ClaimItem,
        Operation::CreateReport,
        Operation::ListTokens,
        Operation::CreateToken,
        Operation::RevokeToken,
        Operation::ListReports,
        Operation::UpdateReport,
        Operation::UpdateItem,
        Operation::SearchItems,
    ]
}

/// The route of an operation.
pub open spec fn spec_route(o: Operation) -> Route {
    match o {
        Operation::UploadFile => Route::Files,
        Operation::DeleteFile => Route::File,
        Operation::CreatePaste => Route::Pastes,
        Operation::DeletePaste => Route::Paste,
        Operation::ListMyFiles => Route::MyFiles,
        Operation::ListMyPastes => Route::MyPastes,
        Operation::ClaimItem => Route::Claim,
        Operation::CreateReport => Route::Reports,
        Operation::ListTokens => Route::Tokens,
        Operation::CreateToken => Route::Tokens,
        Operation::RevokeToken => Route::Token,
        Operation::ListReports => Route::AdminReports,
        Operation::UpdateReport => Route::AdminReport,
        Operation::UpdateItem => Route::AdminItem,
        Operation::SearchItems => Route::AdminSearch,
    }
}

/// The method of an operation.
pub open spec fn spec_method(o: Operation) -> Method {
    match o {
        Operation::UploadFile => Method::Post,
        Operation::DeleteFile => Method::Delete,
        Operation::CreatePaste => Method::Post,
        Operation::DeletePaste => Method::Delete,
        Operation::ListMyFiles => Method::Get,
        Operation::ListMyPastes => Method::Get,
        Operation::ClaimItem => Method::Post,
        Operation::CreateReport => Method::Post,
        Operation::ListTokens => Method::Get,
        Operation::CreateToken => Method::Post,
        Operation::RevokeToken => Method::Delete,
        Operation::ListReports => Method::Get,
        Operation::UpdateReport => Method::Patch,
        Operation::UpdateItem => Method::Patch,
        Operation::SearchItems => Method::Get,
    }
}

/// What an operation does.
pub open spec fn spec_summary(o: Operation) -> &'static str {
    match o {
        Operation::UploadFile => "Upload a file",
        Operation::DeleteFile => "Delete a file",
        Operation::CreatePaste => "Create a paste",
        Operation::DeletePaste => "Delete a paste",
        Operation::ListMyFiles => "List authenticated account files",
        Operation::ListMyPastes => "List authenticated account pastes",
        Operation::ClaimItem => "Claim an anonymous item",
        Operation::CreateReport => "Report a file or paste",
        Operation::ListTokens => "List account API tokens",
        Operation::CreateToken => "Create an account API token",
        Operation::RevokeToken => "Revoke an account API token",
        Operation::ListReports => "List moderation reports",
        Operation::UpdateReport => "Update a moderation report",
        Operation::UpdateItem => "Update item moderation state, visibility, notes, or blocked hash",
        Operation::SearchItems => "Search file and paste metadata as a moderator",
    }
}

/// Whether an operation may be called without a bearer token.
pub open spec fn spec_anonymous(o: Operation) -> bool {
    match o {
        Operation::UploadFile => true,
        Operation::DeleteFile => true,
        Operation::CreatePaste => true,
        Operation::DeletePaste => true,
        Operation::ListMyFiles => false,
        Operation::ListMyPastes => false,
        Operation::ClaimItem => false,
        Operation::CreateReport => true,
        Operation::ListTokens => false,
        Operation::CreateToken => false,
        Operation::RevokeToken => false,
        Operation::ListReports => false,
        Operation::UpdateReport => false,
        Operation::UpdateItem => false,
        Operation::SearchItems => false,
    }
}

/// The token scope an operation needs.
pub open spec fn spec_scope(o: Operation) -> &'static str {
    match o {
        Operation::UploadFile => "files:write",
        Operation::DeleteFile => "files:delete",
        Operation::CreatePaste => "pastes:write",
        Operation::DeletePaste => "pastes:delete",
        Operation::ListMyFiles => "files:read",
        Operation::ListMyPastes => "pastes:read",
        Operation::ClaimItem => "items:claim",
        Operation::CreateReport => "reports:write",
        Operation::ListTokens => "tokens:read",
        Operation::CreateToken => "tokens:write",
        Operation::RevokeToken => "tokens:write",
        Operation::ListReports => "admin:reports",
        Operation::UpdateReport => "admin:reports",
        Operation::UpdateItem => "admin:items",
        Operation::SearchItems => "admin:search",
    }
}

/// The body an operation takes.
pub open spec fn spec_request(o: Operation) -> Option<RequestBody> {
    match o {
        Operation::UploadFile => Some(RequestBody::Multipart(Schema::FileUpload)),
        Operation::DeleteFile => None,
        Operation::CreatePaste => Some(RequestBody::Json(Schema::PasteRequest)),
        Operation::DeletePaste => None,
        Operation::ListMyFiles => None,
        Operation::ListMyPastes => None,
        Operation::ClaimItem => Some(RequestBody::Json(Schema::ClaimRequest)),
        Operation::CreateReport => Some(RequestBody::Json(Schema::ReportRequest)),
        Operation::ListTokens => None,
        Operation::CreateToken => Some(RequestBody::Json(Schema::TokenCreateRequest)),
        Operation::RevokeToken => None,
        Operation::ListReports => None,
        Operation::UpdateReport => Some(RequestBody::Json(Schema::ReportActionRequest)),
        Operation::UpdateItem => Some(RequestBody::Json(Schema::AdminItemUpdate)),
        Operation::SearchItems => None,
    }
}

/// The parameters of an operation.
pub open spec fn spec_parameters(o: Operation) -> Seq<ApiParameter> {
    match o {
        Operation::UploadFile => Seq::<ApiParameter>::empty(),
        Operation::DeleteFile => seq![
                ApiParameter { name: "id", location: ParamIn::Path, required: true, description: "Public file id", kind: ParamKind::Text },
                ApiParameter { name: "x-delete-token", location: ParamIn::Header, required: false, description: "Anonymous delete token", kind: ParamKind::Text },
            ],
        Operation::CreatePaste => Seq::<ApiParameter>::empty(),
        Operation::DeletePaste => seq![
                ApiParameter { name: "id", location: ParamIn::Path, required: true, description: "Public paste id", kind: ParamKind::Text },
                ApiParameter { name: "x-delete-token", location: ParamIn::Header, required: false, description: "Anonymous delete token", kind: ParamKind::Text },
            ],
        Operation::ListMyFiles => seq![
                ApiParameter { name: "q", location: ParamIn::Query, required: false, description: "Optional file search", kind: ParamKind::Text },
            ],
        Operation::ListMyPastes => seq![
                ApiParameter { name: "q", location: ParamIn::Query, required: false, description: "Optional paste search", kind: ParamKind::Text },
            ],
        Operation::ClaimItem => seq![
                ApiParameter { name: "kind", location: ParamIn::Path, required: true, description: "file or paste", kind: ParamKind::Text },
                ApiParameter { name: "id", location: ParamIn::Path, required: true, description: "Public item id", kind: ParamKind::Text },
            ],
        Operation::CreateReport => Seq::<ApiParameter>::empty(),
        Operation::ListTokens => Seq::<ApiParameter>::empty(),
        Operation::CreateToken => Seq::<ApiParameter>::empty(),
        Operation::RevokeToken => seq![
                ApiParameter { name: "id", location: ParamIn::Path, required: true, description: "Token id", kind: ParamKind::Text },
            ],
        Operation::ListReports => seq![
                ApiParameter { name: "state", location: ParamIn::Query, required: false, description: "Report state", kind: ParamKind::Text },
                ApiParameter { name: "kind", location: ParamIn::Query, required: false, description: "Item kind", kind: ParamKind::Text },
                ApiParameter { name: "reason", location: ParamIn::Query, required: false, description: "Reason search", kind: ParamKind::Text },
                ApiParameter { name: "days", location: ParamIn::Query, required: false, description: "Only recent reports", kind: ParamKind::Integer },
            ],
        Operation::UpdateReport => seq![
                ApiParameter { name: "id", location: ParamIn::Path, required: true, description: "Report id", kind: ParamKind::Text },
            ],
        Operation::UpdateItem => seq![
                ApiParameter { name: "kind", location: ParamIn::Path, required: true, description: "file or paste", kind: ParamKind::Text },
                ApiParameter { name: "id", location: ParamIn::Path, required: true, description: "Public item id", kind: ParamKind::Text },
            ],
        Operation::SearchItems => seq![
                ApiParameter { name: "q", location: ParamIn::Query, required: false, description: "Search query", kind: ParamKind::Text },
                ApiParameter { name: "paste_content", location: ParamIn::Query, required: false, description: "Search paste content", kind: ParamKind::Boolean },
            ],
    }
}

/// The answers of an operation.
pub open spec fn spec_responses(o: Operation) -> Seq<ApiResponse> {
    match o {
        Operation::UploadFile => seq![
                ApiResponse { status: 200, description: "Success", schema: Schema::ApiUploadResponse },
                ApiResponse { status: 400, description: "Invalid upload", schema: Schema::Error },
                ApiResponse { status: 403, description: "Upload forbidden", schema: Schema::Error },
                ApiResponse { status: 413, description: "Upload too large", schema: Schema::Error },
                ApiResponse { status: 429, description: "Rate limited", schema: Schema::Error },
            ],
        Operation::DeleteFile => seq![
                ApiResponse { status: 200, description: "Success", schema: Schema::DeletedResponse },
                ApiResponse { status: 401, description: "Authentication required", schema: Schema::Error },
                ApiResponse { status: 403, description: "Delete forbidden", schema: Schema::Error },
                ApiResponse { status: 404, description: "File not found", schema: Schema::Error },
            ],
        Operation::CreatePaste => seq![
                ApiResponse { status: 200, description: "Success", schema: Schema::PasteCreatedResponse },
                ApiResponse { status: 400, description: "Invalid paste", schema: Schema::Error },
                ApiResponse { status: 403, description: "Paste creation forbidden", schema: Schema::Error },
                ApiResponse { status: 413, description: "Paste too large", schema: Schema::Error },
                ApiResponse { status: 429, description: "Rate limited", schema: Schema::Error },
            ],
        Operation::DeletePaste => seq![
                ApiResponse { status: 200, description: "Success", schema: Schema::DeletedResponse },
                ApiResponse { status: 401, description: "Authentication required", schema: Schema::Error },
                ApiResponse { status: 403, description: "Delete forbidden", schema: Schema::Error },
                ApiResponse { status: 404, description: "Paste not found", schema: Schema::Error },
            ],
        Operation::ListMyFiles => seq![
                ApiResponse { status: 200, description: "Success", schema: Schema::FileItemsResponse },
                ApiResponse { status: 401, description: "Authentication required", schema: Schema::Error },
                ApiResponse { status: 429, description: "Rate limited", schema: Schema::Error },
            ],
        Operation::ListMyPastes => seq![
                ApiResponse { status: 200, description: "Success", schema: Schema::PasteItemsResponse },
                ApiResponse { status: 401, description: "Authentication required", schema: Schema::Error },
                ApiResponse { status: 429, description: "Rate limited", schema: Schema::Error },
            ],
        Operation::ClaimItem => seq![
                ApiResponse { status: 200, description: "Success", schema: Schema::ClaimedResponse },
                ApiResponse { status: 400, description: "Invalid claim token", schema: Schema::Error },
                ApiResponse { status: 401, description: "Authentication required", schema: Schema::Error },
                ApiResponse { status: 403, description: "Claim forbidden", schema: Schema::Error },
                ApiResponse { status: 404, description: "Item not found", schema: Schema::Error },
            ],
        Operation::CreateReport => seq![
                ApiResponse { status: 200, description: "Success", schema: Schema::ReportedResponse },
                ApiResponse { status: 400, description: "Invalid report", schema: Schema::Error },
                ApiResponse { status: 403, description: "Reports disabled", schema: Schema::Error },
                ApiResponse { status: 429, description: "Rate limited", schema: Schema::Error },
            ],
        Operation::ListTokens => seq![
                ApiResponse { status: 200, description: "Success", schema: Schema::TokenItemsResponse },
                ApiResponse { status: 401, description: "Authentication required", schema: Schema::Error },
            ],
        Operation::CreateToken => seq![
                ApiResponse { status: 200, description: "Success", schema: Schema::TokenCreatedResponse },
                ApiResponse { status: 400, description: "Invalid token request", schema: Schema::Error },
                ApiResponse { status: 401, description: "Authentication required", schema: Schema::Error },
                ApiResponse { status: 403, description: "Requested scopes exceed caller scopes", schema: Schema::Error },
                ApiResponse { status: 429, description: "Rate limited", schema: Schema::Error },
            ],
        Operation::RevokeToken => seq![
                ApiResponse { status: 200, description: "Success", schema: Schema::RevokedResponse },
                ApiResponse { status: 401, description: "Authentication required", schema: Schema::Error },
                ApiResponse { status: 404, description: "Token not found", schema: Schema::Error },
            ],
        Operation::ListReports => seq![
                ApiResponse { status: 200, description: "Success", schema: Schema::ReportItemsResponse },
                ApiResponse { status: 401, description: "Authentication required", schema: Schema::Error },
                ApiResponse { status: 403, description: "Moderator role required", schema: Schema::Error },
            ],
        Operation::UpdateReport => seq![
                ApiResponse { status: 200, description: "Success", schema: Schema::UpdatedResponse },
                ApiResponse { status: 400, description: "Invalid moderation action", schema: Schema::Error },
                ApiResponse { status: 401, description: "Authentication required", schema: Schema::Error },
                ApiResponse { status: 403, description: "Moderator role required", schema: Schema::Error },
                ApiResponse { status: 404, description: "Report not found", schema: Schema::Error },
            ],
        Operation::UpdateItem => seq![
                ApiResponse { status: 200, description: "Success", schema: Schema::UpdatedResponse },
                ApiResponse { status: 400, description: "Invalid item update", schema: Schema::Error },
                ApiResponse { status: 401, description: "Authentication required", schema: Schema::Error },
                ApiResponse { status: 403, description: "Moderator role required", schema: Schema::Error },
                ApiResponse { status: 404, description: "Item not found", schema: Schema::Error },
            ],
        Operation::SearchItems => seq![
                ApiResponse { status: 200, description: "Success", schema: Schema::SearchResponse },
                ApiResponse { status: 401, description: "Authentication required", schema: Schema::Error },
                ApiResponse { status: 403, description: "Moderator role required", schema: Schema::Error },
            ],
    }
}

/// The pieces of a route's path.
pub open spec fn spec_segments(r: Route) -> Seq<Segment> {
    match r {
        Route::Files => seq![
                Segment::Lit("/api/v1/files"),
            ],
        Route::File => seq![
                Segment::Lit("/api/v1/files/"),
                Segment::Param("id"),
            ],
        Route::Pastes => seq![
                Segment::Lit("/api/v1/pastes"),
            ],
        Route::Paste => seq![
                Segment::Lit("/api/v1/pastes/"),
                Segment::Param("id"),
            ],
        Route::MyFiles => seq![
                Segment::Lit("/api/v1/me/files"),
            ],
        Route::MyPastes => seq![
                Segment::Lit("/api/v1/me/pastes"),
            ],
        Route::Claim => seq![
                Segment::Lit("/api/v1/claim/"),
                Segment::Param("kind"),
                Segment::Lit("/"),
                Segment::Param("id"),
            ],
        Route::Reports => seq![
                Segment::Lit("/api/v1/reports"),
            ],
        Route::Tokens => seq![
                Segment::Lit("/api/v1/tokens"),
            ],
        Route::Token => seq![
                Segment::Lit("/api/v1/tokens/"),
                Segment::Param("id"),
            ],
        Route::AdminReports => seq![
                Segment::Lit("/api/v1/admin/reports"),
            ],
        Route::AdminReport => seq![
                Segment::Lit("/api/v1/admin/reports/"),
                Segment::Param("id"),
            ],
        Route::AdminItem => seq![
                Segment::Lit("/api/v1/admin/items/"),
                Segment::Param("kind"),
                Segment::Lit("/"),
                Segment::Param("id"),
            ],
        Route::AdminSearch => seq![
                Segment::Lit("/api/v1/admin/search"),
            ],
    }
}

/// Every declared schema.
pub open spec fn spec_declared_schemas() -> Seq<Schema> {
    seq![
        Schema::Error,
        Schema::FileUpload,
        Schema::ApiUploadResponse,
        Schema::FileItem,
        Schema::PasteItem,
        Schema::FileItemsResponse,
        Schema::PasteItemsResponse,
        Schema::TokenItemsResponse,
        Schema::ReportItemsResponse,
        Schema::PasteRequest,
        Schema::PasteCreatedResponse,
        Schema::DeletedResponse,
        Schema::ClaimedResponse,
        Schema::ReportedResponse,
        Schema::RevokedResponse,
        Schema::UpdatedResponse,
        Schema::ClaimRequest,
        Schema::ReportRequest,
        Schema::ReportActionRequest,
        Schema::AdminItemUpdate,
        Schema::TokenCreateRequest,
        Schema::TokenCreatedResponse,
        Schema::TokenSummary,
        Schema::Report,
        Schema::SearchResponse,
    ]
}

/// Every operation, in the order the contract lists them.
pub fn operations() -> (r: Vec<Operation>)
    ensures
        r@ == spec_operations(),
{
    let mut r: Vec<Operation> = Vec::new();
    r.push(Operation::UploadFile);
    r.push(Operation::DeleteFile);
    r.push(Operation::CreatePaste);
    r.push(Operation::DeletePaste);
    r.push(Operation::ListMyFiles);
    r.push(Operation::ListMyPastes);
    r.push(Operation::ClaimItem);
    r.push(Operation::CreateReport);
    r.push(Operation::ListTokens);
    r.push(Operation::CreateToken);
    r.push(Operation::RevokeToken);
    r.push(Operation::ListReports);
    r.push(Operation::UpdateReport);
    r.push(Operation::UpdateItem);
    r.push(Operation::SearchItems);
    assert(r@ =~= spec_operations());
    r
}

impl Operation {
    /// The route of the operation.
    pub fn route(self) -> (r: Route)
        ensures
            r == spec_route(self),
    {
        match self {
            Operation::UploadFile => Route::Files,
            Operation::DeleteFile => Route::File,
            Operation::CreatePaste => Route::Pastes,
            Operation::DeletePaste => Route::Paste,
            Operation::ListMyFiles => Route::MyFiles,
            Operation::ListMyPastes => Route::MyPastes,
            Operation::ClaimItem => Route::Claim,
            Operation::CreateReport => Route::Reports,
            Operation::ListTokens => Route::Tokens,
            Operation::CreateToken => Route::Tokens,
            Operation::RevokeToken => Route::Token,
            Operation::ListReports => Route::AdminReports,
            Operation::UpdateReport => Route::AdminReport,
            Operation::UpdateItem => Route::AdminItem,
            Operation::SearchItems => Route::AdminSearch,
        }
    }
    /// The method of the operation.
    pub fn method(self) -> (r: Method)
        ensures
            r == spec_method(self),
    {
        match self {
            Operation::UploadFile => Method::Post,
            Operation::DeleteFile => Method::Delete,
            Operation::CreatePaste => Method::Post,
            Operation::DeletePaste => Method::Delete,
            Operation::ListMyFiles => Method::Get,
            Operation::ListMyPastes => Method::Get,
            Operation::ClaimItem => Method::Post,
            Operation::CreateReport => Method::Post,
            Operation::ListTokens => Method::Get,
            Operation::CreateToken => Method::Post,
            Operation::RevokeToken => Method::Delete,
            Operation::ListReports => Method::Get,
            Operation::UpdateReport => Method::Patch,
            Operation::UpdateItem => Method::Patch,
            Operation::SearchItems => Method::Get,
        }
    }
    /// What the operation does.
    pub fn summary(self) -> (r: &'static str)
        ensures
            r == spec_summary(self),
    {
        match self {
            Operation::UploadFile => "Upload a file",
            Operation::DeleteFile => "Delete a file",
            Operation::CreatePaste => "Create a paste",
            Operation::DeletePaste => "Delete a paste",
            Operation::ListMyFiles => "List authenticated account files",
            Operation::ListMyPastes => "List authenticated account pastes",
            Operation::ClaimItem => "Claim an anonymous item",
            Operation::CreateReport => "Report a file or paste",
            Operation::ListTokens => "List account API tokens",
            Operation::CreateToken => "Create an account API token",
            Operation::RevokeToken => "Revoke an account API token",
            Operation::ListReports => "List moderation reports",
            Operation::UpdateReport => "Update a moderation report",
            Operation::UpdateItem => "Update item moderation state, visibility, notes, or blocked hash",
            Operation::SearchItems => "Search file and paste metadata as a moderator",
        }
    }
    /// Whether the operation may be called without a bearer token.
    pub fn anonymous(self) -> (r: bool)
        ensures
            r == spec_anonymous(self),
    {
        match self {
            Operation::UploadFile => true,
            Operation::DeleteFile => true,
            Operation::CreatePaste => true,
            Operation::DeletePaste => true,
            Operation::ListMyFiles => false,
            Operation::ListMyPastes => false,
            Operation::ClaimItem => false,
            Operation::CreateReport => true,
            Operation::ListTokens => false,
            Operation::CreateToken => false,
            Operation::RevokeToken => false,
            Operation::ListReports => false,
            Operation::UpdateReport => false,
            Operation::UpdateItem => false,
            Operation::SearchItems => false,
        }
    }
    /// The token scope the operation needs.
    pub fn scope(self) -> (r: &'static str)
        ensures
            r == spec_scope(self),
    {
        match self {
            Operation::UploadFile => "files:write",
            Operation::DeleteFile => "files:delete",
            Operation::CreatePaste => "pastes:write",
            Operation::DeletePaste => "pastes:delete",
            Operation::ListMyFiles => "files:read",
            Operation::ListMyPastes => "pastes:read",
            Operation::ClaimItem => "items:claim",
            Operation::CreateReport => "reports:write",
            Operation::ListTokens => "tokens:read",
            Operation::CreateToken => "tokens:write",
            Operation::RevokeToken => "tokens:write",
            Operation::ListReports => "admin:reports",
            Operation::UpdateReport => "admin:reports",
            Operation::UpdateItem => "admin:items",
            Operation::SearchItems => "admin:search",
        }
    }
    /// The body the operation takes.
    pub fn request(self) -> (r: Option<RequestBody>)
        ensures
            r == spec_request(self),
    {
        match self {
            Operation::UploadFile => Some(RequestBody::Multipart(Schema::FileUpload)),
            Operation::DeleteFile => None,
            Operation::CreatePaste => Some(RequestBody::Json(Schema::PasteRequest)),
            Operation::DeletePaste => None,
            Operation::ListMyFiles => None,
            Operation::ListMyPastes => None,
            Operation::ClaimItem => Some(RequestBody::Json(Schema::ClaimRequest)),
            Operation::CreateReport => Some(RequestBody::Json(Schema::ReportRequest)),
            Operation::ListTokens => None,
            Operation::CreateToken => Some(RequestBody::Json(Schema::TokenCreateRequest)),
            Operation::RevokeToken => None,
            Operation::ListReports => None,
            Operation::UpdateReport => Some(RequestBody::Json(Schema::ReportActionRequest)),
            Operation::UpdateItem => Some(RequestBody::Json(Schema::AdminItemUpdate)),
            Operation::SearchItems => None,
        }
    }
    /// The parameters of the operation.
    pub fn parameters(self) -> (r: Vec<ApiParameter>)
        ensures
            r@ == spec_parameters(self),
    {
        let mut r: Vec<ApiParameter> = Vec::new();
        match self {
            Operation::UploadFile => {
            },
            Operation::DeleteFile => {
                r.push(ApiParameter { name: "id", location: ParamIn::Path, required: true, description: "Public file id", kind: ParamKind::Text });
                r.push(ApiParameter { name: "x-delete-token", location: ParamIn::Header, required: false, description: "Anonymous delete token", kind: ParamKind::Text });
            },
            Operation::CreatePaste => {
            },
            Operation::DeletePaste => {
                r.push(ApiParameter { name: "id", location: ParamIn::Path, required: true, description: "Public paste id", kind: ParamKind::Text });
                r.push(ApiParameter { name: "x-delete-token", location: ParamIn::Header, required: false, description: "Anonymous delete token", kind: ParamKind::Text });
            },
            Operation::ListMyFiles => {
                r.push(ApiParameter { name: "q", location: ParamIn::Query, required: false, description: "Optional file search", kind: ParamKind::Text });
            },
            Operation::ListMyPastes => {
                r.push(ApiParameter { name: "q", location: ParamIn::Query, required: false, description: "Optional paste search", kind: ParamKind::Text });
            },
            Operation::ClaimItem => {
                r.push(ApiParameter { name: "kind", location: ParamIn::Path, required: true, description: "file or paste", kind: ParamKind::Text });
                r.push(ApiParameter { name: "id", location: ParamIn::Path, required: true, description: "Public item id", kind: ParamKind::Text });
            },
            Operation::CreateReport => {
            },
            Operation::ListTokens => {
            },
            Operation::CreateToken => {
            },
            Operation::RevokeToken => {
                r.push(ApiParameter { name: "id", location: ParamIn::Path, required: true, description: "Token id", kind: ParamKind::Text });
            },
            Operation::ListReports => {
                r.push(ApiParameter { name: "state", location: ParamIn::Query, required: false, description: "Report state", kind: ParamKind::Text });
                r.push(ApiParameter { name: "kind", location: ParamIn::Query, required: false, description: "Item kind", kind: ParamKind::Text });
                r.push(ApiParameter { name: "reason", location: ParamIn::Query, required: false, description: "Reason search", kind: ParamKind::Text });
                r.push(ApiParameter { name: "days", location: ParamIn::Query, required: false, description: "Only recent reports", kind: ParamKind::Integer });
            },
            Operation::UpdateReport => {
                r.push(ApiParameter { name: "id", location: ParamIn::Path, required: true, description: "Report id", kind: ParamKind::Text });
            },
            Operation::UpdateItem => {
                r.push(ApiParameter { name: "kind", location: ParamIn::Path, required: true, description: "file or paste", kind: ParamKind::Text });
                r.push(ApiParameter { name: "id", location: ParamIn::Path, required: true, description: "Public item id", kind: ParamKind::Text });
            },
            Operation::SearchItems => {
                r.push(ApiParameter { name: "q", location: ParamIn::Query, required: false, description: "Search query", kind: ParamKind::Text });
                r.push(ApiParameter { name: "paste_content", location: ParamIn::Query, required: false, description: "Search paste content", kind: ParamKind::Boolean });
            },
        }
        assert(r@ =~= spec_parameters(self));
        r
    }
    /// The answers of the operation.
    pub fn responses(self) -> (r: Vec<ApiResponse>)
        ensures
            r@ == spec_responses(self),
    {
        let mut r: Vec<ApiResponse> = Vec::new();
        match self {
            Operation::UploadFile => {
                r.push(ApiResponse { status: 200, description: "Success", schema: Schema::ApiUploadResponse });
                r.push(ApiResponse { status: 400, description: "Invalid upload", schema: Schema::Error });
                r.push(ApiResponse { status: 403, description: "Upload forbidden", schema: Schema::Error });
                r.push(ApiResponse { status: 413, description: "Upload too large", schema: Schema::Error });
                r.push(ApiResponse { status: 429, description: "Rate limited", schema: Schema::Error });
            },
            Operation::DeleteFile => {
                r.push(ApiResponse { status: 200, description: "Success", schema: Schema::DeletedResponse });
                r.push(ApiResponse { status: 401, description: "Authentication required", schema: Schema::Error });
                r.push(ApiResponse { status: 403, description: "Delete forbidden", schema: Schema::Error });
                r.push(ApiResponse { status: 404, description: "File not found", schema: Schema::Error });
            },
            Operation::CreatePaste => {
                r.push(ApiResponse { status: 200, description: "Success", schema: Schema::PasteCreatedResponse });
                r.push(ApiResponse { status: 400, description: "Invalid paste", schema: Schema::Error });
                r.push(ApiResponse { status: 403, description: "Paste creation forbidden", schema: Schema::Error });
                r.push(ApiResponse { status: 413, description: "Paste too large", schema: Schema::Error });
                r.push(ApiResponse { status: 429, description: "Rate limited", schema: Schema::Error });
            },
            Operation::DeletePaste => {
                r.push(ApiResponse { status: 200, description: "Success", schema: Schema::DeletedResponse });
                r.push(ApiResponse { status: 401, description: "Authentication required", schema: Schema::Error });
                r.push(ApiResponse { status: 403, description: "Delete forbidden", schema: Schema::Error });
                r.push(ApiResponse { status: 404, description: "Paste not found", schema: Schema::Error });
            },
            Operation::ListMyFiles => {
                r.push(ApiResponse { status: 200, description: "Success", schema: Schema::FileItemsResponse });
                r.push(ApiResponse { status: 401, description: "Authentication required", schema: Schema::Error });
                r.push(ApiResponse { status: 429, description: "Rate limited", schema: Schema::Error });
            },
            Operation::ListMyPastes => {
                r.push(ApiResponse { status: 200, description: "Success", schema: Schema::PasteItemsResponse });
                r.push(ApiResponse { status: 401, description: "Authentication required", schema: Schema::Error });
                r.push(ApiResponse { status: 429, description: "Rate limited", schema: Schema::Error });
            },
            Operation::ClaimItem => {
                r.push(ApiResponse { status: 200, description: "Success", schema: Schema::ClaimedResponse });
                r.push(ApiResponse { status: 400, description: "Invalid claim token", schema: Schema::Error });
                r.push(ApiResponse { status: 401, description: "Authentication required", schema: Schema::Error });
                r.push(ApiResponse { status: 403, description: "Claim forbidden", schema: Schema::Error });
                r.push(ApiResponse { status: 404, description: "Item not found", schema: Schema::Error });
            },
            Operation::CreateReport => {
                r.push(ApiResponse { status: 200, description: "Success", schema: Schema::ReportedResponse });
                r.push(ApiResponse { status: 400, description: "Invalid report", schema: Schema::Error });
                r.push(ApiResponse { status: 403, description: "Reports disabled", schema: Schema::Error });
                r.push(ApiResponse { status: 429, description: "Rate limited", schema: Schema::Error });
            },
            Operation::ListTokens => {
                r.push(ApiResponse { status: 200, description: "Success", schema: Schema::TokenItemsResponse });
                r.push(ApiResponse { status: 401, description: "Authentication required", schema: Schema::Error });
            },
            Operation::CreateToken => {
                r.push(ApiResponse { status: 200, description: "Success", schema: Schema::TokenCreatedResponse });
                r.push(ApiResponse { status: 400, description: "Invalid token request", schema: Schema::Error });
                r.push(ApiResponse { status: 401, description: "Authentication required", schema: Schema::Error });
                r.push(ApiResponse { status: 403, description: "Requested scopes exceed caller scopes", schema: Schema::Error });
                r.push(ApiResponse { status: 429, description: "Rate limited", schema: Schema::Error });
            },
            Operation::RevokeToken => {
                r.push(ApiResponse { status: 200, description: "Success", schema: Schema::RevokedResponse });
                r.push(ApiResponse { status: 401, description: "Authentication required", schema: Schema::Error });
                r.push(ApiResponse { status: 404, description: "Token not found", schema: Schema::Error });
            },
            Operation::ListReports => {
                r.push(ApiResponse { status: 200, description: "Success", schema: Schema::ReportItemsResponse });
                r.push(ApiResponse { status: 401, description: "Authentication required", schema: Schema::Error });
                r.push(ApiResponse { status: 403, description: "Moderator role required", schema: Schema::Error });
            },
            Operation::UpdateReport => {
                r.push(ApiResponse { status: 200, description: "Success", schema: Schema::UpdatedResponse });
                r.push(ApiResponse { status: 400, description: "Invalid moderation action", schema: Schema::Error });
                r.push(ApiResponse { status: 401, description: "Authentication required", schema: Schema::Error });
                r.push(ApiResponse { status: 403, description: "Moderator role required", schema: Schema::Error });
                r.push(ApiResponse { status: 404, description: "Report not found", schema: Schema::Error });
            },
            Operation::UpdateItem => {
                r.push(ApiResponse { status: 200, description: "Success", schema: Schema::UpdatedResponse });
                r.push(ApiResponse { status: 400, description: "Invalid item update", schema: Schema::Error });
                r.push(ApiResponse { status: 401, description: "Authentication required", schema: Schema::Error });
                r.push(ApiResponse { status: 403, description: "Moderator role required", schema: Schema::Error });
                r.push(ApiResponse { status: 404, description: "Item not found", schema: Schema::Error });
            },
            Operation::SearchItems => {
                r.push(ApiResponse { status: 200, description: "Success", schema: Schema::SearchResponse });
                r.push(ApiResponse { status: 401, description: "Authentication required", schema: Schema::Error });
                r.push(ApiResponse { status: 403, description: "Moderator role required", schema: Schema::Error });
            },
        }
        assert(r@ =~= spec_responses(self));
        r
    }
}

impl Route {
    /// The pieces of the route's path.
    pub fn segments(self) -> (r: Vec<Segment>)
        ensures
            r@ == spec_segments(self),
    {
        let mut r: Vec<Segment> = Vec::new();
        match self {
            Route::Files => {
                r.push(Segment::Lit("/api/v1/files"));
            },
            Route::File => {
                r.push(Segment::Lit("/api/v1/files/"));
                r.push(Segment::Param("id"));
            },
            Route::Pastes => {
                r.push(Segment::Lit("/api/v1/pastes"));
            },
            Route::Paste => {
                r.push(Segment::Lit("/api/v1/pastes/"));
                r.push(Segment::Param("id"));
            },
            Route::MyFiles => {
                r.push(Segment::Lit("/api/v1/me/files"));
            },
            Route::MyPastes => {
                r.push(Segment::Lit("/api/v1/me/pastes"));
            },
            Route::Claim => {
                r.push(Segment::Lit("/api/v1/claim/"));
                r.push(Segment::Param("kind"));
                r.push(Segment::Lit("/"));
                r.push(Segment::Param("id"));
            },
            Route::Reports => {
                r.push(Segment::Lit("/api/v1/reports"));
            },
            Route::Tokens => {
                r.push(Segment::Lit("/api/v1/tokens"));
            },
            Route::Token => {
                r.push(Segment::Lit("/api/v1/tokens/"));
                r.push(Segment::Param("id"));
            },
            Route::AdminReports => {
                r.push(Segment::Lit("/api/v1/admin/reports"));
            },
            Route::AdminReport => {
                r.push(Segment::Lit("/api/v1/admin/reports/"));
                r.push(Segment::Param("id"));
            },
            Route::AdminItem => {
                r.push(Segment::Lit("/api/v1/admin/items/"));
                r.push(Segment::Param("kind"));
                r.push(Segment::Lit("/"));
                r.push(Segment::Param("id"));
            },
            Route::AdminSearch => {
                r.push(Segment::Lit("/api/v1/admin/search"));
            },
        }
        assert(r@ =~= spec_segments(self));
        r
    }
}

/// Every declared schema.
pub fn declared_schemas() -> (r: Vec<Schema>)
    ensures
        r@ == spec_declared_schemas(),
{
    let mut r: Vec<Schema> = Vec::new();
    r.push(Schema::Error);
    r.push(Schema::FileUpload);
    r.push(Schema::ApiUploadResponse);
    r.push(Schema::FileItem);
    r.push(Schema::PasteItem);
    r.push(Schema::FileItemsResponse);
    r.push(Schema::PasteItemsResponse);
    r.push(Schema::TokenItemsResponse);
    r.push(Schema::ReportItemsResponse);
    r.push(Schema::PasteRequest);
    r.push(Schema::PasteCreatedResponse);
    r.push(Schema::DeletedResponse);
    r.push(Schema::ClaimedResponse);
    r.push(Schema::ReportedResponse);
    r.push(Schema::RevokedResponse);
    r.push(Schema::UpdatedResponse);
    r.push(Schema::ClaimRequest);
    r.push(Schema::ReportRequest);
    r.push(Schema::ReportActionRequest);
    r.push(Schema::AdminItemUpdate);
    r.push(Schema::TokenCreateRequest);
    r.push(Schema::TokenCreatedResponse);
    r.push(Schema::TokenSummary);
    r.push(Schema::Report);
    r.push(Schema::SearchResponse);
    assert(r@ =~= spec_declared_schemas());
    r
}

/// The text of a path: its pieces, each parameter written `{name}`.
pub open spec fn render_segments(s: Seq<Segment>) -> Seq<char>
    decreases s.len(),
{
    if s.len() == 0 {
        Seq::empty()
    } else {
        render_segments(s.drop_last()) + match s.last() {
            Segment::Lit(t) => t@,
            Segment::Param(p) => "{"@ + p@ + "}"@,
        }
    }
}

impl Route {
    /// The path of the route, as the contract writes it.
    pub fn path(self) -> (r: String)
        ensures
            r@ == render_segments(spec_segments(self)),
    {
        let segments = self.segments();
        let mut r = String::new();
        let mut i: usize = 0;
        while i < segments.len()
            invariant
                i <= segments.len(),
                segments@ == spec_segments(self),
                r@ == render_segments(segments@.take(i as int)),
            decreases segments.len() - i,
        {
            assert(segments@.take(i + 1).drop_last() =~= segments@.take(i as int));
            match segments[i] {
                Segment::Lit(t) => append_str(&mut r, t),
                Segment::Param(p) => {
                    append_str(&mut r, "{");
                    append_str(&mut r, p);
                    append_str(&mut r, "}");
                    assert(r@ =~= render_segments(segments@.take(i as int)) + ("{"@ + p@ + "}"@));
                },
            }
            i += 1;
        }
        assert(segments@.take(segments.len() as int) =~= segments@);
        r
    }
}

/// The contract lists each operation once, and no two operations answer the
/// same route and method: each of its route and method pairs has exactly one
/// operation.
pub proof fn law_each_route_and_method_once()
    ensures
        spec_operations().len() == 15,
        spec_operations().no_duplicates(),
        forall|o: Operation| spec_operations().contains(o),
        forall|a: Operation, b: Operation|
            a != b ==> (spec_route(a), spec_method(a)) != (spec_route(b), spec_method(b)),
{
    let ops = spec_operations();
    assert forall|o: Operation| ops.contains(o) by {
        match o {
            Operation::UploadFile => assert(ops[0] == o),
            Operation::DeleteFile => assert(ops[1] == o),
            Operation::CreatePaste => assert(ops[2] == o),
            Operation::DeletePaste => assert(ops[3] == o),
            Operation::ListMyFiles => assert(ops[4] == o),
            Operation::ListMyPastes => assert(ops[5] == o),
            Operation::ClaimItem => assert(ops[6] == o),
            Operation::CreateReport => assert(ops[7] == o),
            Operation::ListTokens => assert(ops[8] == o),
            Operation::CreateToken => assert(ops[9] == o),
            Operation::RevokeToken => assert(ops[10] == o),
            Operation::ListReports => assert(ops[11] == o),
            Operation::UpdateReport => assert(ops[12] == o),
            Operation::UpdateItem => assert(ops[13] == o),
            Operation::SearchItems => assert(ops[14] == o),
        }
    }
}

/// Every `{name}` in an operation's path is declared as a required path
/// parameter of the operation.
pub proof fn law_path_parameters_are_declared(o: Operation, k: int)
    requires
        0 <= k < spec_segments(spec_route(o)).len(),
        spec_segments(spec_route(o))[k] is Param,
    ensures
        exists|j: int|
            0 <= j < spec_parameters(o).len() && (#[trigger] spec_parameters(o)[j]).name@
                == spec_segments(spec_route(o))[k]->Param_0@ && spec_parameters(o)[j].location
                == ParamIn::Path && spec_parameters(o)[j].required,
{
    let ps = spec_parameters(o);
    let segs = spec_segments(spec_route(o));
    match o {
        Operation::DeleteFile | Operation::DeletePaste | Operation::RevokeToken
        | Operation::UpdateReport => {
            assert(k == 1);
            assert(ps[0].name@ == segs[k]->Param_0@);
        },
        Operation::ClaimItem | Operation::UpdateItem => {
            if k == 1 {
                assert(ps[0].name@ == segs[k]->Param_0@);
            } else {
                assert(k == 3);
                assert(ps[1].name@ == segs[k]->Param_0@);
            }
        },
        _ => {
            assert(segs.len() == 1);
        },
    }
}

/// Every operation names a successful answer and at least one refusal.
pub proof fn law_operations_answer_and_refuse(o: Operation)
    ensures
        exists|i: int|
            0 <= i < spec_responses(o).len() && 200 <= (#[trigger] spec_responses(o)[i]).status
                < 300,
        exists|i: int|
            0 <= i < spec_responses(o).len() && 400 <= (#[trigger] spec_responses(o)[i]).status
                < 500,
{
    assert(200 <= spec_responses(o)[0].status < 300);
    assert(400 <= spec_responses(o)[1].status < 500);
}

/// Every schema is declared, so every schema that an operation's body or
/// answers name is.
pub proof fn law_named_schemas_are_declared(o: Operation)
    ensures
        forall|s: Schema| spec_declared_schemas().contains(s),
        forall|i: int|
            0 <= i < spec_responses(o).len() ==> spec_declared_schemas().contains(
                (#[trigger] spec_responses(o)[i]).schema,
            ),
        spec_request(o) matches Some(RequestBody::Json(s)) ==> spec_declared_schemas().contains(s),
        spec_request(o) matches Some(RequestBody::Multipart(s)) ==> spec_declared_schemas().contains(s),
{
    let d = spec_declared_schemas();
    assert forall|s: Schema| d.contains(s) by {
        match s {
            Schema::Error => assert(d[0] == s),
            Schema::FileUpload => assert(d[1] == s),
            Schema::ApiUploadResponse => assert(d[2] == s),
            Schema::FileItem => assert(d[3] == s),
            Schema::PasteItem => assert(d[4] == s),
            Schema::FileItemsResponse => assert(d[5] == s),
            Schema::PasteItemsResponse => assert(d[6] == s),
            Schema::TokenItemsResponse => assert(d[7] == s),
            Schema::ReportItemsResponse => assert(d[8] == s),
            Schema::PasteRequest => assert(d[9] == s),
            Schema::PasteCreatedResponse => assert(d[10] == s),
            Schema::DeletedResponse => assert(d[11] == s),
            Schema::ClaimedResponse => assert(d[12] == s),
            Schema::ReportedResponse => assert(d[13] == s),
            Schema::RevokedResponse => assert(d[14] == s),
            Schema::UpdatedResponse => assert(d[15] == s),
            Schema::ClaimRequest => assert(d[16] == s),
            Schema::ReportRequest => assert(d[17] == s),
            Schema::ReportActionRequest => assert(d[18] == s),
            Schema::AdminItemUpdate => assert(d[19] == s),
            Schema::TokenCreateRequest => assert(d[20] == s),
            Schema::TokenCreatedResponse => assert(d[21] == s),
            Schema::TokenSummary => assert(d[22] == s),
            Schema::Report => assert(d[23] == s),
            Schema::SearchResponse => assert(d[24] == s),
        }
    }
}

} // verus!
