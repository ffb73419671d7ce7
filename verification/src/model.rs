use vstd::prelude::*;

verus! {

/// A field value carried in a database request or record: the wire protocol
/// moves strings, booleans and unsigned integers.
pub enum Value {
    VStr(String),
    VBool(bool),
    VNum(u64),
}

/// Spec-level form of a `Value`.
#[verifier::ext_equal]
pub enum ValueV {
    VStr(Seq<char>),
    VBool(bool),
    VNum(u64),
}

impl View for Value {
    type V = ValueV;

    open spec fn view(&self) -> ValueV {
        match self {
            Value::VStr(s) => ValueV::VStr(s@),
            Value::VBool(b) => ValueV::VBool(*b),
            Value::VNum(n) => ValueV::VNum(*n),
        }
    }
}

/// The four operations the database actor understands. One operation per
/// request; no batching, no transactions.
#[derive(Clone, Copy, PartialEq, Eq, Structural, Debug)]
pub enum DatabaseAction {
    Retrieve,
    Insert,
    Update,
    Delete,
}

/// Spec-level view of a field list (field name, value).
pub open spec fn pairs_view(ps: Seq<(String, Value)>) -> Seq<(Seq<char>, ValueV)> {
    ps.map_values(|p: (String, Value)| (p.0@, p.1@))
}

/// Row filter of a retrieve request: match one field map, or any of a list
/// of single-field maps.
pub enum WhereClause {
    Single(Vec<(String, Value)>),
    Or(Vec<(String, Value)>),
}

/// Spec-level form of a `WhereClause`.
#[verifier::ext_equal]
pub enum WhereClauseV {
    Single(Seq<(Seq<char>, ValueV)>),
    Or(Seq<(Seq<char>, ValueV)>),
}

impl View for WhereClause {
    type V = WhereClauseV;

    open spec fn view(&self) -> WhereClauseV {
        match self {
            WhereClause::Single(ps) => WhereClauseV::Single(pairs_view(ps@)),
            WhereClause::Or(ps) => WhereClauseV::Or(pairs_view(ps@)),
        }
    }
}

/// One request to the database actor.
pub struct DatabaseRequest {
    pub table: String,
    pub action: DatabaseAction,
    pub values: Option<Vec<(String, Value)>>,
    pub filters: Option<WhereClause>,
}

/// Spec-level form of a `DatabaseRequest`.
#[verifier::ext_equal]
pub struct DatabaseRequestV {
    pub table: Seq<char>,
    pub action: DatabaseAction,
    pub values: Option<Seq<(Seq<char>, ValueV)>>,
    pub filters: Option<WhereClauseV>,
}

impl View for DatabaseRequest {
    type V = DatabaseRequestV;

    open spec fn view(&self) -> DatabaseRequestV {
        DatabaseRequestV {
            table: self.table@,
            action: self.action,
            values: match self.values {
                Some(ps) => Some(pairs_view(ps@)),
                None => None,
            },
            filters: match self.filters {
                Some(w) => Some(w@),
                None => None,
            },
        }
    }
}

/// One stored authentication record: the credentials side of an identity.
/// The password hash is empty until explicitly set.
pub struct AuthUser {
    pub uid: u64,
    pub email: String,
    pub username: String,
    pub email_verified: bool,
    pub password_hash: String,
}

/// Spec-level form of an `AuthUser`.
#[verifier::ext_equal]
pub struct AuthUserV {
    pub uid: u64,
    pub email: Seq<char>,
    pub username: Seq<char>,
    pub email_verified: bool,
    pub password_hash: Seq<char>,
}

impl View for AuthUser {
    type V = AuthUserV;

    open spec fn view(&self) -> AuthUserV {
        AuthUserV {
            uid: self.uid,
            email: self.email@,
            username: self.username@,
            email_verified: self.email_verified,
            password_hash: self.password_hash@,
        }
    }
}

impl Clone for AuthUser {
    fn clone(&self) -> (r: Self)
        ensures
            r@ == self@,
    {
        AuthUser {
            uid: self.uid,
            email: self.email.clone(),
            username: self.username.clone(),
            email_verified: self.email_verified,
            password_hash: self.password_hash.clone(),
        }
    }
}

/// The public profile record created beside an `AuthUser`, under the same id.
pub struct User {
    pub uid: u64,
    pub email: String,
    pub username: String,
    pub email_verified: bool,
    pub owner: bool,
}

/// Spec-level form of a `User`.
#[verifier::ext_equal]
pub struct UserV {
    pub uid: u64,
    pub email: Seq<char>,
    pub username: Seq<char>,
    pub email_verified: bool,
    pub owner: bool,
}

impl View for User {
    type V = UserV;

    open spec fn view(&self) -> UserV {
        UserV {
            uid: self.uid,
            email: self.email@,
            username: self.username@,
            email_verified: self.email_verified,
            owner: self.owner,
        }
    }
}

/// A reply from the database actor: a payload of records, or an error message.
pub enum DatabaseResponse {
    Data(Vec<AuthUser>),
    Error(String),
}

/// Spec-level form of a `DatabaseResponse`.
#[verifier::ext_equal]
pub enum DatabaseResponseV {
    Data(Seq<AuthUserV>),
    Error(Seq<char>),
}

impl View for DatabaseResponse {
    type V = DatabaseResponseV;

    open spec fn view(&self) -> DatabaseResponseV {
        match self {
            DatabaseResponse::Data(rows) => DatabaseResponseV::Data(rows.deep_view()),
            DatabaseResponse::Error(m) => DatabaseResponseV::Error(m@),
        }
    }
}

impl DeepView for AuthUser {
    type V = AuthUserV;

    open spec fn deep_view(&self) -> AuthUserV {
        self.view()
    }
}

impl DatabaseResponse {
    /// An error reply must be detected before the payload is used.
    pub fn is_error(&self) -> (r: bool)
        ensures
            r == (self@ is Error),
    {
        match self {
            DatabaseResponse::Data(_) => false,
            DatabaseResponse::Error(_) => true,
        }
    }

    /// The message of an error reply.
    pub fn error_message(&self) -> (r: Option<&String>)
        ensures
            match r {
                Some(m) => self@ is Error && m@ == self@->Error_0,
                None => self@ is Data,
            },
    {
        match self {
            DatabaseResponse::Data(_) => None,
            DatabaseResponse::Error(m) => Some(m),
        }
    }
}

/// The error taxonomy of the service; each variant carries the message
/// returned to the client and maps to one HTTP status.
#[derive(Debug)]
pub enum ApiError {
    Validation(String),
    Unauthorized(String),
    Forbidden(String),
    NotFound(String),
    Conflict(String),
    Internal(String),
}

/// Spec-level form of an `ApiError`.
#[verifier::ext_equal]
pub enum ApiErrorV {
    Validation(Seq<char>),
    Unauthorized(Seq<char>),
    Forbidden(Seq<char>),
    NotFound(Seq<char>),
    Conflict(Seq<char>),
    Internal(Seq<char>),
}

impl View for ApiError {
    type V = ApiErrorV;

    open spec fn view(&self) -> ApiErrorV {
        match self {
            ApiError::Validation(m) => ApiErrorV::Validation(m@),
            ApiError::Unauthorized(m) => ApiErrorV::Unauthorized(m@),
            ApiError::Forbidden(m) => ApiErrorV::Forbidden(m@),
            ApiError::NotFound(m) => ApiErrorV::NotFound(m@),
            ApiError::Conflict(m) => ApiErrorV::Conflict(m@),
            ApiError::Internal(m) => ApiErrorV::Internal(m@),
        }
    }
}

/// The HTTP status owed to each error variant.
pub open spec fn spec_status_code(e: ApiErrorV) -> u16 {
    match e {
        ApiErrorV::Validation(_) => 400,
        ApiErrorV::Unauthorized(_) => 401,
        ApiErrorV::Forbidden(_) => 403,
        ApiErrorV::NotFound(_) => 404,
        ApiErrorV::Conflict(_) => 409,
        ApiErrorV::Internal(_) => 500,
    }
}

impl ApiError {
    pub fn status_code(&self) -> (r: u16)
        ensures
            r == spec_status_code(self@),
    {
        match self {
            ApiError::Validation(_) => 400,
            ApiError::Unauthorized(_) => 401,
            ApiError::Forbidden(_) => 403,
            ApiError::NotFound(_) => 404,
            ApiError::Conflict(_) => 409,
            ApiError::Internal(_) => 500,
        }
    }

    /// The message carried by the error.
    pub fn message(&self) -> (r: &String)
        ensures
            match self@ {
                ApiErrorV::Validation(m) => r@ == m,
                ApiErrorV::Unauthorized(m) => r@ == m,
                ApiErrorV::Forbidden(m) => r@ == m,
                ApiErrorV::NotFound(m) => r@ == m,
                ApiErrorV::Conflict(m) => r@ == m,
                ApiErrorV::Internal(m) => r@ == m,
            },
    {
        match self {
            ApiError::Validation(m) => m,
            ApiError::Unauthorized(m) => m,
            ApiError::Forbidden(m) => m,
            ApiError::NotFound(m) => m,
            ApiError::Conflict(m) => m,
            ApiError::Internal(m) => m,
        }
    }
}

/// A registration request body, already parsed from the HTTP layer.
pub struct RegisterRequest {
    pub email: String,
    pub username: String,
    pub password: String,
}

/// Spec-level form of a `RegisterRequest`.
#[verifier::ext_equal]
pub struct RegisterRequestV {
    pub email: Seq<char>,
    pub username: Seq<char>,
    pub password: Seq<char>,
}

impl View for RegisterRequest {
    type V = RegisterRequestV;

    open spec fn view(&self) -> RegisterRequestV {
        RegisterRequestV { email: self.email@, username: self.username@, password: self.password@ }
    }
}

/// The one identifier a login supplies: an email or a username, never both.
pub enum LoginIdentifier {
    Email(String),
    Username(String),
}

/// Spec-level form of a `LoginIdentifier`.
#[verifier::ext_equal]
pub enum LoginIdentifierV {
    Email(Seq<char>),
    Username(Seq<char>),
}

impl View for LoginIdentifier {
    type V = LoginIdentifierV;

    open spec fn view(&self) -> LoginIdentifierV {
        match self {
            LoginIdentifier::Email(s) => LoginIdentifierV::Email(s@),
            LoginIdentifier::Username(s) => LoginIdentifierV::Username(s@),
        }
    }
}

/// A login request body, already parsed from the HTTP layer.
pub struct LoginRequest {
    pub identifier: LoginIdentifier,
    pub password: String,
}

/// Spec-level form of a `LoginRequest`.
#[verifier::ext_equal]
pub struct LoginRequestV {
    pub identifier: LoginIdentifierV,
    pub password: Seq<char>,
}

impl View for LoginRequest {
    type V = LoginRequestV;

    open spec fn view(&self) -> LoginRequestV {
        LoginRequestV { identifier: self.identifier@, password: self.password@ }
    }
}

} // verus!
