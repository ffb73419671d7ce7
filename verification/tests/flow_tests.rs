use acid4sigmas_auth::codec::encode_response;
use acid4sigmas_auth::endpoint::BackendClaims;
use acid4sigmas_auth::endpoint::ConnEvent;
use acid4sigmas_auth::endpoint::ConnState;
use acid4sigmas_auth::endpoint::conn_step;
use acid4sigmas_auth::endpoint::endpoint_claims;
use acid4sigmas_auth::endpoint::endpoint_url;
use acid4sigmas_auth::flows::AuthHeader;
use acid4sigmas_auth::flows::DbOutcome;
use acid4sigmas_auth::flows::LoginAction;
use acid4sigmas_auth::flows::LoginEvent;
use acid4sigmas_auth::flows::LoginState;
use acid4sigmas_auth::flows::RegAction;
use acid4sigmas_auth::flows::RegEvent;
use acid4sigmas_auth::flows::RegState;
use acid4sigmas_auth::flows::auth_header_check;
use acid4sigmas_auth::flows::classify_reply;
use acid4sigmas_auth::flows::login_start;
use acid4sigmas_auth::flows::login_step;
use acid4sigmas_auth::flows::register_start;
use acid4sigmas_auth::flows::register_step;
use acid4sigmas_auth::model::ApiError;
use acid4sigmas_auth::model::AuthUser;
use acid4sigmas_auth::model::DatabaseAction;
use acid4sigmas_auth::model::DatabaseRequest;
use acid4sigmas_auth::model::DatabaseResponse;
use acid4sigmas_auth::model::LoginIdentifier;
use acid4sigmas_auth::model::LoginRequest;
use acid4sigmas_auth::model::RegisterRequest;
use acid4sigmas_auth::model::Value;
use acid4sigmas_auth::model::WhereClause;

// A stub database actor: stores credential rows and profile ids, answers
// each request as the protocol says, and always answers over the wire form.
struct StubActor {
    auth_users: Vec<AuthUser>,
    profiles: Vec<u64>,
}

impl StubActor {
    fn new() -> Self {
        StubActor { auth_users: Vec::new(), profiles: Vec::new() }
    }

    fn field_matches(&self, u: &AuthUser, field: &str, v: &Value) -> bool {
        match (field, v) {
            ("email", Value::VStr(s)) => &u.email == s,
            ("username", Value::VStr(s)) => &u.username == s,
            _ => false,
        }
    }

    fn exchange(&mut self, req: &DatabaseRequest) -> DatabaseResponse {
        match req.action {
            DatabaseAction::Retrieve => {
                let hits: Vec<AuthUser> = match &req.filters {
                    Some(WhereClause::Or(ps)) => self
                        .auth_users
                        .iter()
                        .filter(|u| ps.iter().any(|(f, v)| self.field_matches(u, f, v)))
                        .cloned()
                        .collect(),
                    Some(WhereClause::Single(ps)) => self
                        .auth_users
                        .iter()
                        .filter(|u| ps.iter().all(|(f, v)| self.field_matches(u, f, v)))
                        .cloned()
                        .collect(),
                    None => Vec::new(),
                };
                DatabaseResponse::Data(hits)
            },
            DatabaseAction::Insert => {
                if req.table == "auth_users" {
                    let vs = req.values.as_ref().unwrap();
                    let mut u = AuthUser {
                        uid: 0,
                        email: String::new(),
                        username: String::new(),
                        email_verified: false,
                        password_hash: String::new(),
                    };
                    for (f, v) in vs {
                        match (f.as_str(), v) {
                            ("uid", Value::VNum(n)) => u.uid = *n,
                            ("email", Value::VStr(s)) => u.email = s.clone(),
                            ("username", Value::VStr(s)) => u.username = s.clone(),
                            ("email_verified", Value::VBool(b)) => u.email_verified = *b,
                            ("password_hash", Value::VStr(s)) => u.password_hash = s.clone(),
                            _ => {},
                        }
                    }
                    self.auth_users.push(u);
                } else if req.table == "users" {
                    for (f, v) in req.values.as_ref().unwrap() {
                        if let ("uid", Value::VNum(n)) = (f.as_str(), v) {
                            self.profiles.push(*n);
                        }
                    }
                }
                DatabaseResponse::Data(Vec::new())
            },
            _ => DatabaseResponse::Error("unsupported".to_string()),
        }
    }

    // One full round trip: the reply crosses the wire codec both ways.
    fn wire_exchange(&mut self, req: &DatabaseRequest) -> DbOutcome {
        let resp = self.exchange(req);
        let enc = encode_response(&resp).unwrap();
        classify_reply(Some(&enc))
    }
}

fn stub_hash(pw: &str) -> String {
    format!("h:{}", pw)
}

fn stub_verify(pw: &str, hash: &str) -> bool {
    hash == stub_hash(pw)
}

fn run_register(actor: &mut StubActor, body: RegisterRequest, uid: u64) -> Result<(), ApiError> {
    let (mut state, mut action) = register_start(body, uid, None);
    loop {
        match action {
            RegAction::Send(req) => {
                let outcome = actor.wire_exchange(&req);
                let (s, a) = register_step(state, RegEvent::Exchange(outcome));
                state = s;
                action = a;
            },
            RegAction::Hash(pw) => {
                let hashed = stub_hash(&pw);
                let (s, a) = register_step(state, RegEvent::Hashed(Ok(hashed)));
                state = s;
                action = a;
            },
            RegAction::Finish => match state {
                RegState::Done { result } => return result,
                _ => panic!("finished in a live state"),
            },
        }
    }
}

// Runs a login; also reports every token issuance the machine asked for.
fn run_login(
    actor: &mut StubActor,
    body: LoginRequest,
    issued: &mut Vec<(u64, u64)>,
) -> Result<String, ApiError> {
    let (mut state, mut action) = login_start(body);
    loop {
        match action {
            LoginAction::Send(req) => {
                let outcome = actor.wire_exchange(&req);
                let (s, a) = login_step(state, LoginEvent::Exchange(outcome));
                state = s;
                action = a;
            },
            LoginAction::Verify { password, hash } => {
                let ok = stub_verify(&password, &hash);
                let (s, a) = login_step(state, LoginEvent::Verified(Ok(ok)));
                state = s;
                action = a;
            },
            LoginAction::Issue { uid, expiry_secs } => {
                issued.push((uid, expiry_secs));
                let token = format!("token-{}", uid);
                let (s, a) = login_step(state, LoginEvent::TokenIssued(Ok(token)));
                state = s;
                action = a;
            },
            LoginAction::Finish => match state {
                LoginState::Done { result } => return result,
                _ => panic!("finished in a live state"),
            },
        }
    }
}

fn reg_body() -> RegisterRequest {
    RegisterRequest {
        email: "a@b.com".to_string(),
        username: "a".to_string(),
        password: "p1".to_string(),
    }
}

fn login_body(username: &str, password: &str) -> LoginRequest {
    LoginRequest {
        identifier: LoginIdentifier::Username(username.to_string()),
        password: password.to_string(),
    }
}

#[test]
fn scenario_register_conflict_login_forbidden() {
    let mut actor = StubActor::new();
    let mut issued: Vec<(u64, u64)> = Vec::new();

    assert!(run_register(&mut actor, reg_body(), 7).is_ok());
    assert_eq!(actor.auth_users.len(), 1);
    assert_eq!(actor.profiles, vec![7]);

    let again = run_register(&mut actor, reg_body(), 8);
    let err = again.unwrap_err();
    assert_eq!(err.status_code(), 409);
    assert_eq!(actor.auth_users.len(), 1);
    assert_eq!(actor.profiles.len(), 1);

    let token = run_login(&mut actor, login_body("a", "p1"), &mut issued).unwrap();
    assert_eq!(token, "token-7");
    assert!(!token.is_empty());
    assert_eq!(issued, vec![(7, 31536000)]);

    let wrong = run_login(&mut actor, login_body("a", "wrong"), &mut issued);
    let err = wrong.unwrap_err();
    assert_eq!(err.status_code(), 403);
    assert_eq!(err.message(), "incorrect password.");
    assert_eq!(issued.len(), 1, "no token issued for a wrong password");
}

#[test]
fn registration_for_taken_email_conflicts_under_other_username() {
    let mut actor = StubActor::new();
    assert!(run_register(&mut actor, reg_body(), 1).is_ok());
    let body2 = RegisterRequest {
        email: "a@b.com".to_string(),
        username: "other".to_string(),
        password: "p2".to_string(),
    };
    assert_eq!(run_register(&mut actor, body2, 2).unwrap_err().status_code(), 409);
    assert_eq!(actor.auth_users.len(), 1);
}

#[test]
fn login_before_registration_is_not_found() {
    let mut actor = StubActor::new();
    let mut issued: Vec<(u64, u64)> = Vec::new();
    let err = run_login(&mut actor, login_body("a", "p1"), &mut issued).unwrap_err();
    assert_eq!(err.status_code(), 404);
    assert!(issued.is_empty());
}

#[test]
fn login_by_email_matches_only_email() {
    let mut actor = StubActor::new();
    let mut issued: Vec<(u64, u64)> = Vec::new();
    assert!(run_register(&mut actor, reg_body(), 7).is_ok());
    let body = LoginRequest {
        identifier: LoginIdentifier::Email("a@b.com".to_string()),
        password: "p1".to_string(),
    };
    assert_eq!(run_login(&mut actor, body, &mut issued).unwrap(), "token-7");
    let missing = LoginRequest {
        identifier: LoginIdentifier::Email("a".to_string()),
        password: "p1".to_string(),
    };
    assert_eq!(run_login(&mut actor, missing, &mut issued).unwrap_err().status_code(), 404);
}

#[test]
fn invalid_body_dies_before_any_database_access() {
    let (state, action) = register_start(reg_body(), 9, Some("bad email".to_string()));
    assert!(matches!(action, RegAction::Finish));
    match state {
        RegState::Done { result } => {
            let err = result.unwrap_err();
            assert_eq!(err.status_code(), 400);
            assert_eq!(err.message(), "bad email");
        },
        _ => panic!("not done"),
    }
}

#[test]
fn transport_failure_is_internal() {
    let (state, _a) = register_start(reg_body(), 9, None);
    let (state, action) = register_step(
        state,
        RegEvent::Exchange(DbOutcome::TransportFailed("pipe broke".to_string())),
    );
    assert!(matches!(action, RegAction::Finish));
    match state {
        RegState::Done { result } => {
            let err = result.unwrap_err();
            assert_eq!(err.status_code(), 500);
            assert_eq!(err.message(), "pipe broke");
        },
        _ => panic!("not done"),
    }
}

#[test]
fn absent_reply_to_the_precheck_is_internal_and_inserts_nothing() {
    let (state, _a) = register_start(reg_body(), 9, None);
    let (state, action) = register_step(state, RegEvent::Exchange(DbOutcome::NoReply));
    assert!(matches!(action, RegAction::Finish));
    match state {
        RegState::Done { result } => {
            let err = result.unwrap_err();
            assert_eq!(err.status_code(), 500);
            assert_eq!(err.message(), "the channel closed without a reply");
        },
        _ => panic!("not done"),
    }
}

#[test]
fn absent_reply_to_the_lookup_is_internal() {
    let (state, _a) = login_start(login_body("a", "p1"));
    let (state, action) = login_step(state, LoginEvent::Exchange(DbOutcome::NoReply));
    assert!(matches!(action, LoginAction::Finish));
    match state {
        LoginState::Done { result } => {
            let err = result.unwrap_err();
            assert_eq!(err.status_code(), 500);
            assert_eq!(err.message(), "the channel closed without a reply");
        },
        _ => panic!("not done"),
    }
}

#[test]
fn absent_reply_to_an_insert_is_internal() {
    let (state, _a) = register_start(reg_body(), 9, None);
    let empty = DbOutcome::Reply(DatabaseResponse::Data(vec![]));
    let (state, _a) = register_step(state, RegEvent::Exchange(empty));
    let (state, _a) = register_step(state, RegEvent::Hashed(Ok("h:p1".to_string())));
    assert!(matches!(state, RegState::InsertingAuth { .. }));
    let (state, action) = register_step(state, RegEvent::Exchange(DbOutcome::NoReply));
    assert!(matches!(action, RegAction::Finish));
    match state {
        RegState::Done { result } => assert_eq!(result.unwrap_err().status_code(), 500),
        _ => panic!("not done"),
    }
}

#[test]
fn error_reply_message_is_forwarded_as_internal() {
    let resp = DatabaseResponse::Error("table missing".to_string());
    let enc = encode_response(&resp).unwrap();
    let outcome = classify_reply(Some(&enc));
    let (state, _a) = register_start(reg_body(), 9, None);
    let (state, _a) = register_step(state, RegEvent::Exchange(outcome));
    match state {
        RegState::Done { result } => {
            let err = result.unwrap_err();
            assert_eq!(err.status_code(), 500);
            assert_eq!(err.message(), "table missing");
        },
        _ => panic!("not done"),
    }
}

#[test]
fn first_returned_row_is_canonical() {
    let mut other = sample_row(1, "x@y.com", "x", "h:px");
    other.email_verified = true;
    let first = sample_row(2, "a@b.com", "a", "h:pa");
    let outcome = DbOutcome::Reply(DatabaseResponse::Data(vec![first, other]));
    let (state, _a) = login_start(login_body("a", "pa"));
    let (state, action) = login_step(state, LoginEvent::Exchange(outcome));
    assert!(matches!(state, LoginState::VerifyingPassword { ref user } if user.uid == 2));
    assert!(matches!(action, LoginAction::Verify { hash, .. } if hash == "h:pa"));
}

fn sample_row(uid: u64, email: &str, username: &str, hash: &str) -> AuthUser {
    AuthUser {
        uid,
        email: email.to_string(),
        username: username.to_string(),
        email_verified: false,
        password_hash: hash.to_string(),
    }
}

#[test]
fn classify_reply_handles_absence_and_garbage() {
    assert!(matches!(classify_reply(None), DbOutcome::NoReply));
    assert!(matches!(classify_reply(Some("garbage")), DbOutcome::DecodeFailed));
}

#[test]
fn auth_header_shapes_map_to_statuses() {
    assert_eq!(auth_header_check(AuthHeader::Missing).unwrap_err().status_code(), 401);
    let err = auth_header_check(AuthHeader::Unreadable("bad bytes".to_string())).unwrap_err();
    assert_eq!(err.status_code(), 400);
    assert_eq!(err.message(), "failed to convert: bad bytes");
    assert_eq!(auth_header_check(AuthHeader::Bearer("tok".to_string())).unwrap(), "tok");
}

#[test]
fn endpoint_claims_lapse_one_hour_after_minting() {
    let c: BackendClaims = endpoint_claims(1700000000);
    assert_eq!(c.timestamp, 1700000000);
    assert_eq!(c.exp, 1700003600);
    assert!(c.exp - c.timestamp > 360);
}

#[test]
fn endpoint_url_joins_base_and_token() {
    assert_eq!(endpoint_url("ws://db.local/ws", "abc.def"), "ws://db.local/ws?token=abc.def");
}

#[test]
fn channel_lifecycle_transitions() {
    assert_eq!(conn_step(ConnState::Disconnected, ConnEvent::ConnectOk), ConnState::Connected);
    assert_eq!(conn_step(ConnState::Connected, ConnEvent::TransportFailed), ConnState::Disconnected);
    assert_eq!(conn_step(ConnState::Disconnected, ConnEvent::ConnectFailed), ConnState::Disconnected);
    assert_eq!(conn_step(ConnState::Disconnected, ConnEvent::ReconnectTick), ConnState::Reconnecting);
    assert_eq!(conn_step(ConnState::Reconnecting, ConnEvent::ReconnectOk), ConnState::Connected);
    assert_eq!(conn_step(ConnState::Reconnecting, ConnEvent::ReconnectFailed), ConnState::Disconnected);
    assert_eq!(conn_step(ConnState::Connected, ConnEvent::ReconnectTick), ConnState::Reconnecting);
}
