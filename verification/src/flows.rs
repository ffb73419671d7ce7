use vstd::prelude::*;
use vstd::string::StringExecFns;

use crate::USER_TOKEN_EXPIRY;
use crate::codec::enc_response;
use crate::decode::canonical_empty_reply;
use crate::decode::canonical_error_reply;
use crate::decode::decode_response;
use crate::model::ApiError;
use crate::model::ApiErrorV;
use crate::model::AuthUser;
use crate::model::AuthUserV;
use crate::model::DatabaseAction;
use crate::model::DatabaseRequest;
use crate::model::DatabaseRequestV;
use crate::model::DatabaseResponse;
use crate::model::DatabaseResponseV;
use crate::model::LoginIdentifier;
use crate::model::LoginIdentifierV;
use crate::model::LoginRequest;
use crate::model::LoginRequestV;
use crate::model::RegisterRequest;
use crate::model::RegisterRequestV;
use crate::model::Value;
use crate::model::ValueV;
use crate::model::WhereClause;
use crate::model::WhereClauseV;

verus! {

// ---------------------------------------------------------------------------
// Outcomes of one exchange on the channel, as the caller observed them.
// ---------------------------------------------------------------------------

/// What one send/receive round trip on the channel came to.
pub enum DbOutcome {
    /// A reply arrived and decoded as a canonical message.
    Reply(DatabaseResponse),
    /// The channel closed without a message.
    NoReply,
    /// The transport failed; the message is the transport's own.
    TransportFailed(String),
    /// The outbound request had no canonical wire form.
    EncodeFailed,
    /// The inbound message was not a canonical reply.
    DecodeFailed,
}

/// Spec-level form of a `DbOutcome`.
#[verifier::ext_equal]
pub enum DbOutcomeV {
    Reply(DatabaseResponseV),
    NoReply,
    TransportFailed(Seq<char>),
    EncodeFailed,
    DecodeFailed,
}

impl View for DbOutcome {
    type V = DbOutcomeV;

    open spec fn view(&self) -> DbOutcomeV {
        match self {
            DbOutcome::Reply(p) => DbOutcomeV::Reply(p@),
            DbOutcome::NoReply => DbOutcomeV::NoReply,
            DbOutcome::TransportFailed(m) => DbOutcomeV::TransportFailed(m@),
            DbOutcome::EncodeFailed => DbOutcomeV::EncodeFailed,
            DbOutcome::DecodeFailed => DbOutcomeV::DecodeFailed,
        }
    }
}

/// A received message, or its absence, at the spec level.
pub open spec fn msg_view(msg: Option<&str>) -> Option<Seq<char>> {
    match msg {
        Some(s) => Some(s@),
        None => None,
    }
}

/// Turns a received message, or its absence, into an exchange outcome.
///
/// A decoded reply is exact: its canonical form is the received text; a
/// canonical error reply or empty payload is never classified undecodable.
pub fn classify_reply(msg: Option<&str>) -> (r: DbOutcome)
    ensures
        match r@ {
            DbOutcomeV::Reply(p) => msg matches Some(s) && s@ == enc_response(p),
            DbOutcomeV::NoReply => msg is None,
            DbOutcomeV::DecodeFailed => msg is Some,
            _ => false,
        },
        forall|t: Seq<char>, m: Seq<char>|
            (msg_view(msg) == Some(t) && #[trigger] canonical_error_reply(t, m)) ==> r@
                == DbOutcomeV::Reply(DatabaseResponseV::Error(m)),
        (msg matches Some(s) && canonical_empty_reply(s@)) ==> r@ == DbOutcomeV::Reply(
            DatabaseResponseV::Data(Seq::<AuthUserV>::empty()),
        ),
{
    match msg {
        None => DbOutcome::NoReply,
        Some(s) => match decode_response(s) {
            Ok(p) => DbOutcome::Reply(p),
            Err(_) => DbOutcome::DecodeFailed,
        },
    }
}

// ---------------------------------------------------------------------------
// The requests the two workflows put on the wire.
// ---------------------------------------------------------------------------

/// The uniqueness pre-check: retrieve any credential row whose email or
/// username matches.
pub open spec fn identity_check_request_v(email: Seq<char>, username: Seq<char>) -> DatabaseRequestV {
    DatabaseRequestV {
        table: "auth_users"@,
        action: DatabaseAction::Retrieve,
        values: None,
        filters: Some(
            WhereClauseV::Or(
                seq![("email"@, ValueV::VStr(email)), ("username"@, ValueV::VStr(username))],
            ),
        ),
    }
}

/// Builds the uniqueness pre-check request.
pub fn identity_check_request(email: &String, username: &String) -> (r: DatabaseRequest)
    ensures
        r@ == identity_check_request_v(email@, username@),
{
    let mut ps: Vec<(String, Value)> = Vec::new();
    ps.push((String::from_str("email"), Value::VStr(email.clone())));
    ps.push((String::from_str("username"), Value::VStr(username.clone())));
    let r = DatabaseRequest {
        table: String::from_str("auth_users"),
        action: DatabaseAction::Retrieve,
        values: None,
        filters: Some(WhereClause::Or(ps)),
    };
    proof {
        assert(r@ =~~= identity_check_request_v(email@, username@));
    }
    r
}

/// The field list under which a credential row is inserted.
pub open spec fn auth_user_values_v(u: AuthUserV) -> Seq<(Seq<char>, ValueV)> {
    seq![
        ("uid"@, ValueV::VNum(u.uid)),
        ("email"@, ValueV::VStr(u.email)),
        ("username"@, ValueV::VStr(u.username)),
        ("email_verified"@, ValueV::VBool(u.email_verified)),
        ("password_hash"@, ValueV::VStr(u.password_hash)),
    ]
}

/// The insert of a credential row.
pub open spec fn insert_auth_request_v(u: AuthUserV) -> DatabaseRequestV {
    DatabaseRequestV {
        table: "auth_users"@,
        action: DatabaseAction::Insert,
        values: Some(auth_user_values_v(u)),
        filters: None,
    }
}

/// Builds the insert of a credential row.
pub fn insert_auth_request(u: &AuthUser) -> (r: DatabaseRequest)
    ensures
        r@ == insert_auth_request_v(u@),
{
    let mut ps: Vec<(String, Value)> = Vec::new();
    ps.push((String::from_str("uid"), Value::VNum(u.uid)));
    ps.push((String::from_str("email"), Value::VStr(u.email.clone())));
    ps.push((String::from_str("username"), Value::VStr(u.username.clone())));
    ps.push((String::from_str("email_verified"), Value::VBool(u.email_verified)));
    ps.push((String::from_str("password_hash"), Value::VStr(u.password_hash.clone())));
    let r = DatabaseRequest {
        table: String::from_str("auth_users"),
        action: DatabaseAction::Insert,
        values: Some(ps),
        filters: None,
    };
    proof {
        assert(r@ =~~= insert_auth_request_v(u@));
    }
    r
}

/// The field list under which a profile row is inserted beside a credential
/// row: same id, verification and ownership both off.
pub open spec fn profile_values_v(u: AuthUserV) -> Seq<(Seq<char>, ValueV)> {
    seq![
        ("uid"@, ValueV::VNum(u.uid)),
        ("email"@, ValueV::VStr(u.email)),
        ("username"@, ValueV::VStr(u.username)),
        ("email_verified"@, ValueV::VBool(false)),
        ("owner"@, ValueV::VBool(false)),
    ]
}

/// The insert of the profile row owed to a credential row.
pub open spec fn insert_profile_request_v(u: AuthUserV) -> DatabaseRequestV {
    DatabaseRequestV {
        table: "users"@,
        action: DatabaseAction::Insert,
        values: Some(profile_values_v(u)),
        filters: None,
    }
}

/// Builds the insert of the profile row owed to a credential row.
pub fn insert_profile_request(u: &AuthUser) -> (r: DatabaseRequest)
    ensures
        r@ == insert_profile_request_v(u@),
{
    let mut ps: Vec<(String, Value)> = Vec::new();
    ps.push((String::from_str("uid"), Value::VNum(u.uid)));
    ps.push((String::from_str("email"), Value::VStr(u.email.clone())));
    ps.push((String::from_str("username"), Value::VStr(u.username.clone())));
    ps.push((String::from_str("email_verified"), Value::VBool(false)));
    ps.push((String::from_str("owner"), Value::VBool(false)));
    let r = DatabaseRequest {
        table: String::from_str("users"),
        action: DatabaseAction::Insert,
        values: Some(ps),
        filters: None,
    };
    proof {
        assert(r@ =~~= insert_profile_request_v(u@));
    }
    r
}

/// The login lookup: retrieve the credential row matching the one supplied
/// identifier.
pub open spec fn login_lookup_request_v(id: LoginIdentifierV) -> DatabaseRequestV {
    DatabaseRequestV {
        table: "auth_users"@,
        action: DatabaseAction::Retrieve,
        values: None,
        filters: Some(
            WhereClauseV::Single(
                match id {
                    LoginIdentifierV::Email(e) => seq![("email"@, ValueV::VStr(e))],
                    LoginIdentifierV::Username(u) => seq![("username"@, ValueV::VStr(u))],
                },
            ),
        ),
    }
}

/// Builds the login lookup request.
pub fn login_lookup_request(id: &LoginIdentifier) -> (r: DatabaseRequest)
    ensures
        r@ == login_lookup_request_v(id@),
{
    let mut ps: Vec<(String, Value)> = Vec::new();
    match id {
        LoginIdentifier::Email(e) => {
            ps.push((String::from_str("email"), Value::VStr(e.clone())));
        },
        LoginIdentifier::Username(u) => {
            ps.push((String::from_str("username"), Value::VStr(u.clone())));
        },
    }
    let r = DatabaseRequest {
        table: String::from_str("auth_users"),
        action: DatabaseAction::Retrieve,
        values: None,
        filters: Some(WhereClause::Single(ps)),
    };
    proof {
        assert(r@ =~~= login_lookup_request_v(id@));
    }
    r
}

// ---------------------------------------------------------------------------
// The registration workflow.
//
// The workflow is a state machine: each step consumes the state and one
// event (the outcome of the action last asked for) and returns the next
// state and the next action. The surrounding runtime performs the actions:
// it exchanges requests on the channel and runs the external hasher.
// ---------------------------------------------------------------------------

/// Where a registration stands.
pub enum RegState {
    /// The uniqueness pre-check is on the wire.
    CheckingIdentity { pending: AuthUser, password: String },
    /// The external hasher is working on the password.
    Hashing { pending: AuthUser },
    /// The credential row insert is on the wire.
    InsertingAuth { pending: AuthUser },
    /// The profile row insert is on the wire.
    InsertingProfile { pending: AuthUser },
    /// The workflow is over.
    Done { result: Result<(), ApiError> },
}

/// Spec-level form of a `RegState`.
#[verifier::ext_equal]
pub enum RegStateV {
    CheckingIdentity { pending: AuthUserV, password: Seq<char> },
    Hashing { pending: AuthUserV },
    InsertingAuth { pending: AuthUserV },
    InsertingProfile { pending: AuthUserV },
    Done { result: Result<(), ApiErrorV> },
}

impl View for RegState {
    type V = RegStateV;

    open spec fn view(&self) -> RegStateV {
        match self {
            RegState::CheckingIdentity { pending, password } => RegStateV::CheckingIdentity {
                pending: pending@,
                password: password@,
            },
            RegState::Hashing { pending } => RegStateV::Hashing { pending: pending@ },
            RegState::InsertingAuth { pending } => RegStateV::InsertingAuth { pending: pending@ },
            RegState::InsertingProfile { pending } => RegStateV::InsertingProfile {
                pending: pending@,
            },
            RegState::Done { result } => RegStateV::Done {
                result: match result {
                    Ok(_) => Ok(()),
                    Err(e) => Err(e@),
                },
            },
        }
    }
}

/// What a registration step asks the runtime to do next.
pub enum RegAction {
    /// Exchange this request on the channel and hand back the outcome.
    Send(DatabaseRequest),
    /// Run the external hasher on this password and hand back the outcome.
    Hash(String),
    /// Nothing: the workflow is over.
    Finish,
}

/// Spec-level form of a `RegAction`.
#[verifier::ext_equal]
pub enum RegActionV {
    Send(DatabaseRequestV),
    Hash(Seq<char>),
    Finish,
}

impl View for RegAction {
    type V = RegActionV;

    open spec fn view(&self) -> RegActionV {
        match self {
            RegAction::Send(q) => RegActionV::Send(q@),
            RegAction::Hash(p) => RegActionV::Hash(p@),
            RegAction::Finish => RegActionV::Finish,
        }
    }
}

/// One event handed back to the registration workflow.
pub enum RegEvent {
    /// The outcome of the exchange last asked for.
    Exchange(DbOutcome),
    /// The outcome of the hashing last asked for.
    Hashed(Result<String, String>),
}

/// Spec-level form of a `RegEvent`.
#[verifier::ext_equal]
pub enum RegEventV {
    Exchange(DbOutcomeV),
    Hashed(Result<Seq<char>, Seq<char>>),
}

impl View for RegEvent {
    type V = RegEventV;

    open spec fn view(&self) -> RegEventV {
        match self {
            RegEvent::Exchange(o) => RegEventV::Exchange(o@),
            RegEvent::Hashed(r) => RegEventV::Hashed(
                match r {
                    Ok(h) => Ok(h@),
                    Err(e) => Err(e@),
                },
            ),
        }
    }
}

/// The credential row a registration prepares: the password hash stays empty
/// until the hasher has answered.
pub open spec fn new_auth_user_v(body: RegisterRequestV, uid: u64) -> AuthUserV {
    AuthUserV {
        uid: uid,
        email: body.email,
        username: body.username,
        email_verified: false,
        password_hash: Seq::<char>::empty(),
    }
}

/// The message returned when the identity is already taken.
pub open spec fn conflict_msg() -> Seq<char> {
    "an user with this email or username already exists."@
}

/// The message returned when an exchange outcome was not a canonical reply.
pub open spec fn decode_failed_msg() -> Seq<char> {
    "the reply could not be decoded"@
}

/// The message returned when a request had no canonical wire form.
pub open spec fn encode_failed_msg() -> Seq<char> {
    "the request could not be encoded"@
}

/// The message returned when a step gets an event its state cannot take.
pub open spec fn protocol_msg() -> Seq<char> {
    "protocol violation"@
}

/// The message returned when the channel closed without delivering a reply.
pub open spec fn no_reply_msg() -> Seq<char> {
    "the channel closed without a reply"@
}

/// The error a workflow dies with when an exchange failed outright.
pub open spec fn exchange_error_v(o: DbOutcomeV) -> ApiErrorV {
    match o {
        DbOutcomeV::TransportFailed(m) => ApiErrorV::Internal(m),
        DbOutcomeV::EncodeFailed => ApiErrorV::Internal(encode_failed_msg()),
        DbOutcomeV::DecodeFailed => ApiErrorV::Internal(decode_failed_msg()),
        DbOutcomeV::NoReply => ApiErrorV::Internal(no_reply_msg()),
        _ => ApiErrorV::Internal(protocol_msg()),
    }
}

/// How a registration begins: an invalid body dies with the validator's
/// message before any database access; otherwise the uniqueness pre-check
/// goes on the wire.
pub open spec fn reg_start_v(body: RegisterRequestV, uid: u64, validation: Option<Seq<char>>) -> (
    RegStateV,
    RegActionV,
) {
    match validation {
        Some(m) => (RegStateV::Done { result: Err(ApiErrorV::Validation(m)) }, RegActionV::Finish),
        None => (
            RegStateV::CheckingIdentity {
                pending: new_auth_user_v(body, uid),
                password: body.password,
            },
            RegActionV::Send(identity_check_request_v(body.email, body.username)),
        ),
    }
}

/// Starts a registration from a request body, a freshly generated account
/// id, and the external validator's verdict (an error message, if any).
pub fn register_start(body: RegisterRequest, uid: u64, validation: Option<String>) -> (r: (
    RegState,
    RegAction,
))
    ensures
        (r.0@, r.1@) == reg_start_v(
            body@,
            uid,
            match validation {
                Some(m) => Some(m@),
                None => None::<Seq<char>>,
            },
        ),
{
    match validation {
        Some(m) => (
            RegState::Done { result: Err(ApiError::Validation(m)) },
            RegAction::Finish,
        ),
        None => {
            let req = identity_check_request(&body.email, &body.username);
            let pending = AuthUser {
                uid: uid,
                email: body.email,
                username: body.username,
                email_verified: false,
                password_hash: String::new(),
            };
            (
                RegState::CheckingIdentity { pending, password: body.password },
                RegAction::Send(req),
            )
        },
    }
}

/// One registration step at the spec level.
///
/// The pre-check: any returned row means the identity is taken (conflict); a
/// protocol error dies internal, and so does a channel that closes without a
/// reply: every failed exchange maps to an error before any insert. The two
/// inserts are not atomic together: a failed profile insert does not undo
/// the credential insert.
pub open spec fn reg_step_v(s: RegStateV, e: RegEventV) -> (RegStateV, RegActionV) {
    match (s, e) {
        (RegStateV::CheckingIdentity { pending, password }, RegEventV::Exchange(o)) => match o {
            DbOutcomeV::Reply(DatabaseResponseV::Error(m)) => (
                RegStateV::Done { result: Err(ApiErrorV::Internal(m)) },
                RegActionV::Finish,
            ),
            DbOutcomeV::Reply(DatabaseResponseV::Data(rows)) => if rows.len() > 0 {
                (
                    RegStateV::Done { result: Err(ApiErrorV::Conflict(conflict_msg())) },
                    RegActionV::Finish,
                )
            } else {
                (RegStateV::Hashing { pending }, RegActionV::Hash(password))
            },
            _ => (RegStateV::Done { result: Err(exchange_error_v(o)) }, RegActionV::Finish),
        },
        (RegStateV::Hashing { pending }, RegEventV::Hashed(h)) => match h {
            Ok(hash) => {
                let filled = AuthUserV { password_hash: hash, ..pending };
                (
                    RegStateV::InsertingAuth { pending: filled },
                    RegActionV::Send(insert_auth_request_v(filled)),
                )
            },
            Err(m) => (
                RegStateV::Done { result: Err(ApiErrorV::Internal(m)) },
                RegActionV::Finish,
            ),
        },
        (RegStateV::InsertingAuth { pending }, RegEventV::Exchange(o)) => match o {
            DbOutcomeV::Reply(DatabaseResponseV::Error(m)) => (
                RegStateV::Done { result: Err(ApiErrorV::Internal(m)) },
                RegActionV::Finish,
            ),
            DbOutcomeV::Reply(DatabaseResponseV::Data(_)) => (
                RegStateV::InsertingProfile { pending },
                RegActionV::Send(insert_profile_request_v(pending)),
            ),
            _ => (RegStateV::Done { result: Err(exchange_error_v(o)) }, RegActionV::Finish),
        },
        (RegStateV::InsertingProfile { pending }, RegEventV::Exchange(o)) => match o {
            DbOutcomeV::Reply(DatabaseResponseV::Error(m)) => (
                RegStateV::Done { result: Err(ApiErrorV::Internal(m)) },
                RegActionV::Finish,
            ),
            DbOutcomeV::Reply(DatabaseResponseV::Data(_)) => (
                RegStateV::Done { result: Ok(()) },
                RegActionV::Finish,
            ),
            _ => (RegStateV::Done { result: Err(exchange_error_v(o)) }, RegActionV::Finish),
        },
        _ => (
            RegStateV::Done { result: Err(ApiErrorV::Internal(protocol_msg())) },
            RegActionV::Finish,
        ),
    }
}

/// Advances a registration by one event.
pub fn register_step(state: RegState, event: RegEvent) -> (r: (RegState, RegAction))
    ensures
        (r.0@, r.1@) == reg_step_v(state@, event@),
{
    match (state, event) {
        (RegState::CheckingIdentity { pending, password }, RegEvent::Exchange(o)) => match o {
            DbOutcome::Reply(DatabaseResponse::Error(m)) => (
                RegState::Done { result: Err(ApiError::Internal(m)) },
                RegAction::Finish,
            ),
            DbOutcome::Reply(DatabaseResponse::Data(rows)) => {
                if rows.len() > 0 {
                    (
                        RegState::Done {
                            result: Err(
                                ApiError::Conflict(
                                    String::from_str(
                                        "an user with this email or username already exists.",
                                    ),
                                ),
                            ),
                        },
                        RegAction::Finish,
                    )
                } else {
                    (RegState::Hashing { pending }, RegAction::Hash(password))
                }
            },
            DbOutcome::NoReply => (
                RegState::Done {
                    result: Err(
                        ApiError::Internal(
                            String::from_str("the channel closed without a reply"),
                        ),
                    ),
                },
                RegAction::Finish,
            ),
            DbOutcome::TransportFailed(m) => (
                RegState::Done { result: Err(ApiError::Internal(m)) },
                RegAction::Finish,
            ),
            DbOutcome::EncodeFailed => (
                RegState::Done {
                    result: Err(
                        ApiError::Internal(String::from_str("the request could not be encoded")),
                    ),
                },
                RegAction::Finish,
            ),
            DbOutcome::DecodeFailed => (
                RegState::Done {
                    result: Err(
                        ApiError::Internal(String::from_str("the reply could not be decoded")),
                    ),
                },
                RegAction::Finish,
            ),
        },
        (RegState::Hashing { pending }, RegEvent::Hashed(h)) => match h {
            Ok(hash) => {
                let filled = AuthUser {
                    uid: pending.uid,
                    email: pending.email,
                    username: pending.username,
                    email_verified: pending.email_verified,
                    password_hash: hash,
                };
                let req = insert_auth_request(&filled);
                (RegState::InsertingAuth { pending: filled }, RegAction::Send(req))
            },
            Err(m) => (
                RegState::Done { result: Err(ApiError::Internal(m)) },
                RegAction::Finish,
            ),
        },
        (RegState::InsertingAuth { pending }, RegEvent::Exchange(o)) => match o {
            DbOutcome::Reply(DatabaseResponse::Error(m)) => (
                RegState::Done { result: Err(ApiError::Internal(m)) },
                RegAction::Finish,
            ),
            DbOutcome::Reply(DatabaseResponse::Data(_)) => {
                let req = insert_profile_request(&pending);
                (RegState::InsertingProfile { pending }, RegAction::Send(req))
            },
            DbOutcome::NoReply => (
                RegState::Done {
                    result: Err(
                        ApiError::Internal(
                            String::from_str("the channel closed without a reply"),
                        ),
                    ),
                },
                RegAction::Finish,
            ),
            DbOutcome::TransportFailed(m) => (
                RegState::Done { result: Err(ApiError::Internal(m)) },
                RegAction::Finish,
            ),
            DbOutcome::EncodeFailed => (
                RegState::Done {
                    result: Err(
                        ApiError::Internal(String::from_str("the request could not be encoded")),
                    ),
                },
                RegAction::Finish,
            ),
            DbOutcome::DecodeFailed => (
                RegState::Done {
                    result: Err(
                        ApiError::Internal(String::from_str("the reply could not be decoded")),
                    ),
                },
                RegAction::Finish,
            ),
        },
        (RegState::InsertingProfile { pending: _ }, RegEvent::Exchange(o)) => match o {
            DbOutcome::Reply(DatabaseResponse::Error(m)) => (
                RegState::Done { result: Err(ApiError::Internal(m)) },
                RegAction::Finish,
            ),
            DbOutcome::Reply(DatabaseResponse::Data(_)) => (
                RegState::Done { result: Ok(()) },
                RegAction::Finish,
            ),
            DbOutcome::NoReply => (
                RegState::Done {
                    result: Err(
                        ApiError::Internal(
                            String::from_str("the channel closed without a reply"),
                        ),
                    ),
                },
                RegAction::Finish,
            ),
            DbOutcome::TransportFailed(m) => (
                RegState::Done { result: Err(ApiError::Internal(m)) },
                RegAction::Finish,
            ),
            DbOutcome::EncodeFailed => (
                RegState::Done {
                    result: Err(
                        ApiError::Internal(String::from_str("the request could not be encoded")),
                    ),
                },
                RegAction::Finish,
            ),
            DbOutcome::DecodeFailed => (
                RegState::Done {
                    result: Err(
                        ApiError::Internal(String::from_str("the reply could not be decoded")),
                    ),
                },
                RegAction::Finish,
            ),
        },
        _ => (
            RegState::Done {
                result: Err(ApiError::Internal(String::from_str("protocol violation"))),
            },
            RegAction::Finish,
        ),
    }
}

// ---------------------------------------------------------------------------
// The login workflow.
// ---------------------------------------------------------------------------

/// Where a login stands.
pub enum LoginState {
    /// The credential lookup is on the wire.
    LookingUp { password: String },
    /// The external verifier is holding the password against the stored hash.
    VerifyingPassword { user: AuthUser },
    /// The external issuer is minting the bearer token.
    IssuingToken { uid: u64 },
    /// The workflow is over; success carries the issued token.
    Done { result: Result<String, ApiError> },
}

/// Spec-level form of a `LoginState`.
#[verifier::ext_equal]
pub enum LoginStateV {
    LookingUp { password: Seq<char> },
    VerifyingPassword { user: AuthUserV },
    IssuingToken { uid: u64 },
    Done { result: Result<Seq<char>, ApiErrorV> },
}

impl View for LoginState {
    type V = LoginStateV;

    open spec fn view(&self) -> LoginStateV {
        match self {
            LoginState::LookingUp { password } => LoginStateV::LookingUp { password: password@ },
            LoginState::VerifyingPassword { user } => LoginStateV::VerifyingPassword {
                user: user@,
            },
            LoginState::IssuingToken { uid } => LoginStateV::IssuingToken { uid: *uid },
            LoginState::Done { result } => LoginStateV::Done {
                result: match result {
                    Ok(t) => Ok(t@),
                    Err(e) => Err(e@),
                },
            },
        }
    }
}

/// What a login step asks the runtime to do next.
pub enum LoginAction {
    /// Exchange this request on the channel and hand back the outcome.
    Send(DatabaseRequest),
    /// Run the external verifier on this password and stored hash.
    Verify { password: String, hash: String },
    /// Ask the external issuer for a bearer token for this account, good for
    /// this many seconds.
    Issue { uid: u64, expiry_secs: u64 },
    /// Nothing: the workflow is over.
    Finish,
}

/// Spec-level form of a `LoginAction`.
#[verifier::ext_equal]
pub enum LoginActionV {
    Send(DatabaseRequestV),
    Verify { password: Seq<char>, hash: Seq<char> },
    Issue { uid: u64, expiry_secs: u64 },
    Finish,
}

impl View for LoginAction {
    type V = LoginActionV;

    open spec fn view(&self) -> LoginActionV {
        match self {
            LoginAction::Send(q) => LoginActionV::Send(q@),
            LoginAction::Verify { password, hash } => LoginActionV::Verify {
                password: password@,
                hash: hash@,
            },
            LoginAction::Issue { uid, expiry_secs } => LoginActionV::Issue {
                uid: *uid,
                expiry_secs: *expiry_secs,
            },
            LoginAction::Finish => LoginActionV::Finish,
        }
    }
}

/// One event handed back to the login workflow.
pub enum LoginEvent {
    /// The outcome of the exchange last asked for.
    Exchange(DbOutcome),
    /// The verifier's verdict, or its own failure.
    Verified(Result<bool, String>),
    /// The issued token, or the issuer's failure.
    TokenIssued(Result<String, String>),
}

/// Spec-level form of a `LoginEvent`.
#[verifier::ext_equal]
pub enum LoginEventV {
    Exchange(DbOutcomeV),
    Verified(Result<bool, Seq<char>>),
    TokenIssued(Result<Seq<char>, Seq<char>>),
}

impl View for LoginEvent {
    type V = LoginEventV;

    open spec fn view(&self) -> LoginEventV {
        match self {
            LoginEvent::Exchange(o) => LoginEventV::Exchange(o@),
            LoginEvent::Verified(r) => LoginEventV::Verified(
                match r {
                    Ok(b) => Ok(*b),
                    Err(e) => Err(e@),
                },
            ),
            LoginEvent::TokenIssued(r) => LoginEventV::TokenIssued(
                match r {
                    Ok(t) => Ok(t@),
                    Err(e) => Err(e@),
                },
            ),
        }
    }
}

/// The message returned when no credential row matches the identifier.
pub open spec fn not_found_msg() -> Seq<char> {
    "no user exists with this email or username, please register first"@
}

/// The message returned when the password does not match.
pub open spec fn wrong_password_msg() -> Seq<char> {
    "incorrect password."@
}

/// How a login begins: the lookup for the one supplied identifier goes on
/// the wire.
pub open spec fn login_start_v(body: LoginRequestV) -> (LoginStateV, LoginActionV) {
    (
        LoginStateV::LookingUp { password: body.password },
        LoginActionV::Send(login_lookup_request_v(body.identifier)),
    )
}

/// Starts a login from a request body.
pub fn login_start(body: LoginRequest) -> (r: (LoginState, LoginAction))
    ensures
        (r.0@, r.1@) == login_start_v(body@),
{
    let req = login_lookup_request(&body.identifier);
    (LoginState::LookingUp { password: body.password }, LoginAction::Send(req))
}

/// One login step at the spec level.
///
/// An empty lookup result is "not found"; the first returned row is
/// canonical; a mismatched password is forbidden and no token is asked for;
/// a matched one asks the issuer for a token good for one year. Every
/// failed exchange, a channel that closes without a reply included, maps to
/// an internal error at once.
pub open spec fn login_step_v(s: LoginStateV, e: LoginEventV) -> (LoginStateV, LoginActionV) {
    match (s, e) {
        (LoginStateV::LookingUp { password }, LoginEventV::Exchange(o)) => match o {
            DbOutcomeV::Reply(DatabaseResponseV::Error(m)) => (
                LoginStateV::Done { result: Err(ApiErrorV::Internal(m)) },
                LoginActionV::Finish,
            ),
            DbOutcomeV::Reply(DatabaseResponseV::Data(rows)) => if rows.len() == 0 {
                (
                    LoginStateV::Done { result: Err(ApiErrorV::NotFound(not_found_msg())) },
                    LoginActionV::Finish,
                )
            } else {
                (
                    LoginStateV::VerifyingPassword { user: rows[0] },
                    LoginActionV::Verify { password, hash: rows[0].password_hash },
                )
            },
            _ => (LoginStateV::Done { result: Err(exchange_error_v(o)) }, LoginActionV::Finish),
        },
        (LoginStateV::VerifyingPassword { user }, LoginEventV::Verified(v)) => match v {
            Ok(true) => (
                LoginStateV::IssuingToken { uid: user.uid },
                LoginActionV::Issue { uid: user.uid, expiry_secs: USER_TOKEN_EXPIRY },
            ),
            Ok(false) => (
                LoginStateV::Done { result: Err(ApiErrorV::Forbidden(wrong_password_msg())) },
                LoginActionV::Finish,
            ),
            Err(m) => (
                LoginStateV::Done { result: Err(ApiErrorV::Internal(m)) },
                LoginActionV::Finish,
            ),
        },
        (LoginStateV::IssuingToken { uid: _ }, LoginEventV::TokenIssued(t)) => match t {
            Ok(token) => (
                LoginStateV::Done { result: Ok(token) },
                LoginActionV::Finish,
            ),
            Err(m) => (
                LoginStateV::Done { result: Err(ApiErrorV::Internal(m)) },
                LoginActionV::Finish,
            ),
        },
        _ => (
            LoginStateV::Done { result: Err(ApiErrorV::Internal(protocol_msg())) },
            LoginActionV::Finish,
        ),
    }
}

/// Advances a login by one event.
pub fn login_step(state: LoginState, event: LoginEvent) -> (r: (LoginState, LoginAction))
    ensures
        (r.0@, r.1@) == login_step_v(state@, event@),
{
    match (state, event) {
        (LoginState::LookingUp { password }, LoginEvent::Exchange(o)) => match o {
            DbOutcome::Reply(DatabaseResponse::Error(m)) => (
                LoginState::Done { result: Err(ApiError::Internal(m)) },
                LoginAction::Finish,
            ),
            DbOutcome::Reply(DatabaseResponse::Data(rows)) => {
                if rows.len() == 0 {
                    (
                        LoginState::Done {
                            result: Err(
                                ApiError::NotFound(
                                    String::from_str(
                                        "no user exists with this email or username, please register first",
                                    ),
                                ),
                            ),
                        },
                        LoginAction::Finish,
                    )
                } else {
                    let user = rows[0].clone();
                    let hash = user.password_hash.clone();
                    proof {
                        assert(user@ == rows.deep_view()[0]);
                    }
                    (
                        LoginState::VerifyingPassword { user },
                        LoginAction::Verify { password, hash },
                    )
                }
            },
            DbOutcome::NoReply => (
                LoginState::Done {
                    result: Err(
                        ApiError::Internal(
                            String::from_str("the channel closed without a reply"),
                        ),
                    ),
                },
                LoginAction::Finish,
            ),
            DbOutcome::TransportFailed(m) => (
                LoginState::Done { result: Err(ApiError::Internal(m)) },
                LoginAction::Finish,
            ),
            DbOutcome::EncodeFailed => (
                LoginState::Done {
                    result: Err(
                        ApiError::Internal(String::from_str("the request could not be encoded")),
                    ),
                },
                LoginAction::Finish,
            ),
            DbOutcome::DecodeFailed => (
                LoginState::Done {
                    result: Err(
                        ApiError::Internal(String::from_str("the reply could not be decoded")),
                    ),
                },
                LoginAction::Finish,
            ),
        },
        (LoginState::VerifyingPassword { user }, LoginEvent::Verified(v)) => match v {
            Ok(true) => {
                let uid = user.uid;
                (
                    LoginState::IssuingToken { uid },
                    LoginAction::Issue { uid, expiry_secs: USER_TOKEN_EXPIRY },
                )
            },
            Ok(false) => (
                LoginState::Done {
                    result: Err(ApiError::Forbidden(String::from_str("incorrect password."))),
                },
                LoginAction::Finish,
            ),
            Err(m) => (
                LoginState::Done { result: Err(ApiError::Internal(m)) },
                LoginAction::Finish,
            ),
        },
        (LoginState::IssuingToken { uid: _ }, LoginEvent::TokenIssued(t)) => match t {
            Ok(token) => (
                LoginState::Done { result: Ok(token) },
                LoginAction::Finish,
            ),
            Err(m) => (
                LoginState::Done { result: Err(ApiError::Internal(m)) },
                LoginAction::Finish,
            ),
        },
        _ => (
            LoginState::Done {
                result: Err(ApiError::Internal(String::from_str("protocol violation"))),
            },
            LoginAction::Finish,
        ),
    }
}

// ---------------------------------------------------------------------------
// The verify-email endpoint's decisions.
// ---------------------------------------------------------------------------

/// The Authorization header as the HTTP layer received it: absent, present
/// but not readable as text, or readable.
pub enum AuthHeader {
    Missing,
    Unreadable(String),
    Bearer(String),
}

/// Spec-level form of an `AuthHeader`.
#[verifier::ext_equal]
pub enum AuthHeaderV {
    Missing,
    Unreadable(Seq<char>),
    Bearer(Seq<char>),
}

impl View for AuthHeader {
    type V = AuthHeaderV;

    open spec fn view(&self) -> AuthHeaderV {
        match self {
            AuthHeader::Missing => AuthHeaderV::Missing,
            AuthHeader::Unreadable(m) => AuthHeaderV::Unreadable(m@),
            AuthHeader::Bearer(t) => AuthHeaderV::Bearer(t@),
        }
    }
}

/// What the verify-email endpoint owes for each shape of the header: absent
/// is unauthorized, unreadable is a bad request, readable passes.
pub open spec fn auth_header_check_v(h: AuthHeaderV) -> Result<Seq<char>, ApiErrorV> {
    match h {
        AuthHeaderV::Missing => Err(ApiErrorV::Unauthorized("Authorization header missing"@)),
        AuthHeaderV::Unreadable(m) => Err(ApiErrorV::Validation("failed to convert: "@ + m)),
        AuthHeaderV::Bearer(t) => Ok(t),
    }
}

/// Checks the Authorization header of a verify-email call.
pub fn auth_header_check(h: AuthHeader) -> (r: Result<String, ApiError>)
    ensures
        (match r {
            Ok(t) => Ok(t@),
            Err(e) => Err(e@),
        }) == auth_header_check_v(h@),
{
    match h {
        AuthHeader::Missing => Err(
            ApiError::Unauthorized(String::from_str("Authorization header missing")),
        ),
        AuthHeader::Unreadable(m) => {
            let msg = String::from_str("failed to convert: ").concat(m.as_str());
            Err(ApiError::Validation(msg))
        },
        AuthHeader::Bearer(t) => Ok(t),
    }
}

} // verus!
