use vstd::prelude::*;

use crate::USER_TOKEN_EXPIRY;
use crate::flows::DbOutcomeV;
use crate::flows::LoginActionV;
use crate::flows::LoginEventV;
use crate::flows::LoginStateV;
use crate::flows::RegActionV;
use crate::flows::RegEventV;
use crate::flows::RegStateV;
use crate::flows::conflict_msg;
use crate::flows::identity_check_request_v;
use crate::flows::insert_auth_request_v;
use crate::flows::insert_profile_request_v;
use crate::flows::login_lookup_request_v;
use crate::flows::login_start_v;
use crate::flows::login_step_v;
use crate::flows::new_auth_user_v;
use crate::flows::not_found_msg;
use crate::flows::protocol_msg;
use crate::flows::reg_start_v;
use crate::flows::reg_step_v;
use crate::flows::wrong_password_msg;
use crate::model::ApiErrorV;
use crate::model::AuthUserV;
use crate::model::DatabaseResponseV;
use crate::model::LoginIdentifierV;
use crate::model::LoginRequestV;
use crate::model::RegisterRequestV;
use crate::model::UserV;
use crate::model::spec_status_code;

verus! {

// ---------------------------------------------------------------------------
// A model of the database actor: the rows of the two tables the workflows
// touch, and what each request the workflows send does to them. Everything
// here is ghost; it exists so that what the workflows promise can be stated
// and proved against a database in which nothing else moves.
// ---------------------------------------------------------------------------

/// The stored rows.
#[verifier::ext_equal]
pub struct ModelDb {
    pub auth_users: Seq<AuthUserV>,
    pub users: Seq<UserV>,
}

/// Whether a credential row is hit by the registration pre-check for an
/// identity: either field taken.
pub open spec fn matches_identity(u: AuthUserV, email: Seq<char>, username: Seq<char>) -> bool {
    u.email == email || u.username == username
}

/// The rows the pre-check retrieve returns.
pub open spec fn identity_rows(db: Seq<AuthUserV>, email: Seq<char>, username: Seq<char>) -> Seq<
    AuthUserV,
> {
    db.filter(|u: AuthUserV| matches_identity(u, email, username))
}

/// Whether a credential row is hit by a login lookup.
pub open spec fn matches_login(u: AuthUserV, id: LoginIdentifierV) -> bool {
    match id {
        LoginIdentifierV::Email(e) => u.email == e,
        LoginIdentifierV::Username(n) => u.username == n,
    }
}

/// The rows a login lookup returns.
pub open spec fn login_rows(db: Seq<AuthUserV>, id: LoginIdentifierV) -> Seq<AuthUserV> {
    db.filter(|u: AuthUserV| matches_login(u, id))
}

/// The profile row created beside a credential row: same id, verification
/// and ownership both off.
pub open spec fn profile_of(u: AuthUserV) -> UserV {
    UserV { uid: u.uid, email: u.email, username: u.username, email_verified: false, owner: false }
}

/// What a whole registration comes to against a database in which nothing
/// else moves: a taken identity conflicts and writes nothing; a failed hash
/// dies internal and writes nothing; otherwise both rows are stored.
pub open spec fn reg_run_v(
    db: ModelDb,
    body: RegisterRequestV,
    uid: u64,
    hash: Result<Seq<char>, Seq<char>>,
) -> (ModelDb, Result<(), ApiErrorV>) {
    if identity_rows(db.auth_users, body.email, body.username).len() > 0 {
        (db, Err(ApiErrorV::Conflict(conflict_msg())))
    } else {
        match hash {
            Err(m) => (db, Err(ApiErrorV::Internal(m))),
            Ok(h) => {
                let filled = AuthUserV { password_hash: h, ..new_auth_user_v(body, uid) };
                (
                    ModelDb {
                        auth_users: db.auth_users.push(filled),
                        users: db.users.push(profile_of(filled)),
                    },
                    Ok(()),
                )
            },
        }
    }
}

/// What a whole login comes to against such a database, given the external
/// verifier's verdict and the external issuer's outcome.
pub open spec fn login_run_v(
    db: ModelDb,
    body: LoginRequestV,
    verify: Result<bool, Seq<char>>,
    token: Result<Seq<char>, Seq<char>>,
) -> Result<Seq<char>, ApiErrorV> {
    let rows = login_rows(db.auth_users, body.identifier);
    if rows.len() == 0 {
        Err(ApiErrorV::NotFound(not_found_msg()))
    } else {
        match verify {
            Err(m) => Err(ApiErrorV::Internal(m)),
            Ok(false) => Err(ApiErrorV::Forbidden(wrong_password_msg())),
            Ok(true) => match token {
                Err(m) => Err(ApiErrorV::Internal(m)),
                Ok(t) => Ok(t),
            },
        }
    }
}

/// The registration machine, driven against the model database: each Send
/// action is answered as the actor would, each insert is stored.
pub open spec fn reg_machine_run_v(
    db: ModelDb,
    body: RegisterRequestV,
    uid: u64,
    hash: Result<Seq<char>, Seq<char>>,
) -> (ModelDb, Result<(), ApiErrorV>) {
    let (s1, _a1) = reg_start_v(body, uid, None);
    let rows = identity_rows(db.auth_users, body.email, body.username);
    let (s2, _a2) = reg_step_v(s1, RegEventV::Exchange(DbOutcomeV::Reply(DatabaseResponseV::Data(rows))));
    match s2 {
        RegStateV::Done { result } => (db, result),
        _ => {
            let (s3, _a3) = reg_step_v(s2, RegEventV::Hashed(hash));
            match s3 {
                RegStateV::Done { result } => (db, result),
                RegStateV::InsertingAuth { pending } => {
                    let db1 = ModelDb { auth_users: db.auth_users.push(pending), users: db.users };
                    let (s4, _a4) = reg_step_v(
                        s3,
                        RegEventV::Exchange(
                            DbOutcomeV::Reply(DatabaseResponseV::Data(Seq::empty())),
                        ),
                    );
                    match s4 {
                        RegStateV::Done { result } => (db1, result),
                        RegStateV::InsertingProfile { pending: p } => {
                            let db2 = ModelDb {
                                auth_users: db1.auth_users,
                                users: db1.users.push(profile_of(p)),
                            };
                            let (s5, _a5) = reg_step_v(
                                s4,
                                RegEventV::Exchange(
                                    DbOutcomeV::Reply(DatabaseResponseV::Data(Seq::empty())),
                                ),
                            );
                            match s5 {
                                RegStateV::Done { result } => (db2, result),
                                _ => (db2, Err(ApiErrorV::Internal(protocol_msg()))),
                            }
                        },
                        _ => (db1, Err(ApiErrorV::Internal(protocol_msg()))),
                    }
                },
                _ => (db, Err(ApiErrorV::Internal(protocol_msg()))),
            }
        },
    }
}

/// The registration machine, run against the model database, does exactly
/// what `reg_run_v` says; and every request it puts on the wire is the
/// canonical one for the row it is working on.
pub proof fn lemma_registration_run(
    db: ModelDb,
    body: RegisterRequestV,
    uid: u64,
    hash: Result<Seq<char>, Seq<char>>,
)
    ensures
        reg_machine_run_v(db, body, uid, hash) == reg_run_v(db, body, uid, hash),
        reg_start_v(body, uid, None).1 == RegActionV::Send(
            identity_check_request_v(body.email, body.username),
        ),
        identity_rows(db.auth_users, body.email, body.username).len() == 0 && hash is Ok
            ==> ({
            let filled = AuthUserV { password_hash: hash->Ok_0, ..new_auth_user_v(body, uid) };
            let (s1, _a1) = reg_start_v(body, uid, None);
            let rows = identity_rows(db.auth_users, body.email, body.username);
            let (s2, a2) = reg_step_v(
                s1,
                RegEventV::Exchange(DbOutcomeV::Reply(DatabaseResponseV::Data(rows))),
            );
            let (s3, a3) = reg_step_v(s2, RegEventV::Hashed(hash));
            let (s4, a4) = reg_step_v(
                s3,
                RegEventV::Exchange(DbOutcomeV::Reply(DatabaseResponseV::Data(Seq::empty()))),
            );
            &&& a2 == RegActionV::Hash(body.password)
            &&& a3 == RegActionV::Send(insert_auth_request_v(filled))
            &&& a4 == RegActionV::Send(insert_profile_request_v(filled))
        }),
{
    let rows = identity_rows(db.auth_users, body.email, body.username);
    if rows.len() == 0 {
        match hash {
            Ok(h) => {
                let filled = AuthUserV { password_hash: h, ..new_auth_user_v(body, uid) };
                assert(reg_machine_run_v(db, body, uid, hash).0 =~~= reg_run_v(
                    db,
                    body,
                    uid,
                    hash,
                ).0);
            },
            Err(_) => {},
        }
    }
}

// ---------------------------------------------------------------------------
// The properties the service owes.
// ---------------------------------------------------------------------------

/// Splitting a filtered sequence over a push.
proof fn lemma_filter_push<A>(s: Seq<A>, pred: spec_fn(A) -> bool, x: A)
    ensures
        s.push(x).filter(pred) == if pred(x) {
            s.filter(pred).push(x)
        } else {
            s.filter(pred)
        },
{
    reveal(Seq::filter);
    assert(s.push(x).drop_last() =~= s);
    assert(s.push(x).last() == x);
}

/// A registration for an unused identity succeeds, stores the credential
/// and profile rows under one id, and a login that then looks the identity
/// up finds exactly that row; with the verifier confirming the stored hash
/// and the issuer answering, the login succeeds with the issued token.
pub proof fn lemma_register_then_login(
    db: ModelDb,
    body: RegisterRequestV,
    uid: u64,
    h: Seq<char>,
    login: LoginRequestV,
    token: Seq<char>,
)
    requires
        identity_rows(db.auth_users, body.email, body.username).len() == 0,
        match login.identifier {
            LoginIdentifierV::Email(e) => e == body.email,
            LoginIdentifierV::Username(n) => n == body.username,
        },
        token.len() > 0,
    ensures
        ({
            let (db1, r1) = reg_run_v(db, body, uid, Ok::<Seq<char>, Seq<char>>(h));
            let filled = AuthUserV { password_hash: h, ..new_auth_user_v(body, uid) };
            &&& r1 == Ok::<(), ApiErrorV>(())
            &&& db1.auth_users == db.auth_users.push(filled)
            &&& db1.users == db.users.push(profile_of(filled))
            &&& login_rows(db1.auth_users, login.identifier) == seq![filled]
            &&& login_run_v(db1, login, Ok(true), Ok(token)) == Ok::<Seq<char>, ApiErrorV>(token)
        }),
{
    let filled = AuthUserV { password_hash: h, ..new_auth_user_v(body, uid) };
    let idpred = |u: AuthUserV| matches_identity(u, body.email, body.username);
    let loginpred = |u: AuthUserV| matches_login(u, login.identifier);
    assert forall|i: int| 0 <= i < db.auth_users.len() implies !loginpred(db.auth_users[i]) by {
        if loginpred(db.auth_users[i]) {
            assert(idpred(db.auth_users[i]));
            db.auth_users.lemma_filter_contains(idpred, i);
            db.auth_users.lemma_filter_len(idpred);
        }
    }
    lemma_filter_empty(db.auth_users, loginpred);
    lemma_filter_push(db.auth_users, loginpred, filled);
    assert(loginpred(filled));
    assert(login_rows(db.auth_users.push(filled), login.identifier) =~= seq![filled]);
}

/// A sequence none of whose elements passes a filter filters to nothing.
proof fn lemma_filter_empty<A>(s: Seq<A>, pred: spec_fn(A) -> bool)
    requires
        forall|i: int| 0 <= i < s.len() ==> !pred(#[trigger] s[i]),
    ensures
        s.filter(pred) == Seq::<A>::empty(),
    decreases s.len(),
{
    reveal(Seq::filter);
    if s.len() > 0 {
        lemma_filter_empty(s.drop_last(), pred);
        assert(!pred(s.last()));
        assert(s.filter(pred) =~= Seq::<A>::empty());
    } else {
        assert(s.filter(pred) =~= Seq::<A>::empty());
    }
}

/// A registration whose identity is already stored conflicts, stores
/// nothing, and conflicts again when repeated with nothing else moving.
pub proof fn lemma_taken_identity_conflicts(
    db: ModelDb,
    body: RegisterRequestV,
    uid: u64,
    hash: Result<Seq<char>, Seq<char>>,
    uid2: u64,
    hash2: Result<Seq<char>, Seq<char>>,
)
    requires
        identity_rows(db.auth_users, body.email, body.username).len() > 0,
    ensures
        reg_run_v(db, body, uid, hash) == (db, Err::<(), ApiErrorV>(
            ApiErrorV::Conflict(conflict_msg()),
        )),
        reg_run_v(reg_run_v(db, body, uid, hash).0, body, uid2, hash2).1 == Err::<(), ApiErrorV>(
            ApiErrorV::Conflict(conflict_msg()),
        ),
        spec_status_code(ApiErrorV::Conflict(conflict_msg())) == 409,
{
}

/// The login machine, driven against the model database: the lookup is
/// answered with the matching rows, the verifier's verdict and the issuer's
/// outcome are handed in.
pub open spec fn login_machine_run_v(
    db: ModelDb,
    body: LoginRequestV,
    verify: Result<bool, Seq<char>>,
    token: Result<Seq<char>, Seq<char>>,
) -> Result<Seq<char>, ApiErrorV> {
    let (s1, _a1) = login_start_v(body);
    let rows = login_rows(db.auth_users, body.identifier);
    let (s2, _a2) = login_step_v(
        s1,
        LoginEventV::Exchange(DbOutcomeV::Reply(DatabaseResponseV::Data(rows))),
    );
    match s2 {
        LoginStateV::Done { result } => result,
        _ => {
            let (s3, _a3) = login_step_v(s2, LoginEventV::Verified(verify));
            match s3 {
                LoginStateV::Done { result } => result,
                _ => {
                    let (s4, _a4) = login_step_v(s3, LoginEventV::TokenIssued(token));
                    match s4 {
                        LoginStateV::Done { result } => result,
                        _ => Err(ApiErrorV::Internal(protocol_msg())),
                    }
                },
            }
        },
    }
}

/// The login machine, run against the model database, does exactly what
/// `login_run_v` says. The lookup on the wire is the canonical one for the
/// supplied identifier; the verifier is handed the supplied password and
/// the stored hash of the first returned row; a token is asked for only on
/// a confirmed match, for that row's id and a one-year expiry.
pub proof fn lemma_login_run(
    db: ModelDb,
    body: LoginRequestV,
    verify: Result<bool, Seq<char>>,
    token: Result<Seq<char>, Seq<char>>,
)
    ensures
        login_machine_run_v(db, body, verify, token) == login_run_v(db, body, verify, token),
        login_start_v(body).1 == LoginActionV::Send(login_lookup_request_v(body.identifier)),
        ({
            let rows = login_rows(db.auth_users, body.identifier);
            let (s1, _a1) = login_start_v(body);
            let (s2, a2) = login_step_v(
                s1,
                LoginEventV::Exchange(DbOutcomeV::Reply(DatabaseResponseV::Data(rows))),
            );
            let (s3, a3) = login_step_v(s2, LoginEventV::Verified(verify));
            &&& rows.len() > 0 ==> a2 == LoginActionV::Verify {
                password: body.password,
                hash: rows[0].password_hash,
            }
            &&& rows.len() > 0 && verify == Ok::<bool, Seq<char>>(true) ==> a3
                == LoginActionV::Issue { uid: rows[0].uid, expiry_secs: USER_TOKEN_EXPIRY }
            &&& rows.len() > 0 && verify == Ok::<bool, Seq<char>>(false) ==> s3 == LoginStateV::Done {
                result: Err(ApiErrorV::Forbidden(wrong_password_msg())),
            } && a3 == LoginActionV::Finish
        }),
{
}

/// A token is asked for only after the verifier has confirmed the password:
/// no step of the login machine emits an issue action on any other event.
pub proof fn lemma_token_only_after_match(s: LoginStateV, e: LoginEventV)
    ensures
        login_step_v(s, e).1 is Issue ==> s is VerifyingPassword && e == LoginEventV::Verified(
            Ok::<bool, Seq<char>>(true),
        ),
{
}

/// A login naming an identifier no stored row matches is answered not
/// found, whatever the verifier or issuer would have said.
pub proof fn lemma_unknown_identifier_not_found(
    db: ModelDb,
    body: LoginRequestV,
    verify: Result<bool, Seq<char>>,
    token: Result<Seq<char>, Seq<char>>,
)
    requires
        login_rows(db.auth_users, body.identifier).len() == 0,
    ensures
        login_run_v(db, body, verify, token) == Err::<Seq<char>, ApiErrorV>(
            ApiErrorV::NotFound(not_found_msg()),
        ),
        spec_status_code(ApiErrorV::NotFound(not_found_msg())) == 404,
{
}

/// A wrong password is forbidden and no token is asked for.
pub proof fn lemma_wrong_password_forbidden(
    db: ModelDb,
    body: LoginRequestV,
    token: Result<Seq<char>, Seq<char>>,
)
    requires
        login_rows(db.auth_users, body.identifier).len() > 0,
    ensures
        login_run_v(db, body, Ok(false), token) == Err::<Seq<char>, ApiErrorV>(
            ApiErrorV::Forbidden(wrong_password_msg()),
        ),
        spec_status_code(ApiErrorV::Forbidden(wrong_password_msg())) == 403,
{
}

/// The bearer token asked for at login lapses exactly one year after
/// issuance.
pub proof fn lemma_token_ttl_is_one_year()
    ensures
        USER_TOKEN_EXPIRY == 365 * 24 * 60 * 60,
{
}

/// Two registrations for the same unused identity, run one after the other
/// with nothing else moving: the first succeeds, the second conflicts and
/// stores nothing, and exactly one matching credential row remains. This
/// holds of serialized runs only; two that interleave between pre-check and
/// insert can both pass the pre-check, an accepted gap of the design.
pub proof fn lemma_serialized_duplicate_registration(
    db: ModelDb,
    body: RegisterRequestV,
    uid: u64,
    h: Seq<char>,
    body2: RegisterRequestV,
    uid2: u64,
    hash2: Result<Seq<char>, Seq<char>>,
)
    requires
        identity_rows(db.auth_users, body.email, body.username).len() == 0,
        body2.email == body.email,
        body2.username == body.username,
    ensures
        ({
            let (db1, r1) = reg_run_v(db, body, uid, Ok::<Seq<char>, Seq<char>>(h));
            let (db2, r2) = reg_run_v(db1, body2, uid2, hash2);
            &&& r1 == Ok::<(), ApiErrorV>(())
            &&& r2 == Err::<(), ApiErrorV>(ApiErrorV::Conflict(conflict_msg()))
            &&& db2 == db1
            &&& identity_rows(db2.auth_users, body.email, body.username).len() == 1
        }),
{
    let filled = AuthUserV { password_hash: h, ..new_auth_user_v(body, uid) };
    let idpred = |u: AuthUserV| matches_identity(u, body.email, body.username);
    lemma_filter_push(db.auth_users, idpred, filled);
    assert(idpred(filled));
    let (db1, _r1) = reg_run_v(db, body, uid, Ok::<Seq<char>, Seq<char>>(h));
    assert(identity_rows(db1.auth_users, body.email, body.username).len() == 1);
    assert(identity_rows(db1.auth_users, body2.email, body2.username).len() == 1);
}

} // verus!
