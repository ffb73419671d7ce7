use acid4sigmas_auth::codec::encode_request;
use acid4sigmas_auth::codec::encode_response;
use acid4sigmas_auth::decode::decode_request;
use acid4sigmas_auth::decode::decode_response;
use acid4sigmas_auth::flows::identity_check_request;
use acid4sigmas_auth::flows::insert_auth_request;
use acid4sigmas_auth::model::AuthUser;
use acid4sigmas_auth::model::DatabaseAction;
use acid4sigmas_auth::model::DatabaseRequest;
use acid4sigmas_auth::model::DatabaseResponse;
use acid4sigmas_auth::model::Value;
use acid4sigmas_auth::model::WhereClause;

fn sample_user() -> AuthUser {
    AuthUser {
        uid: 1234567890123,
        email: "a@b.com".to_string(),
        username: "a".to_string(),
        email_verified: false,
        password_hash: "$2b$12$abcdefghijklmnopqrstuv".to_string(),
    }
}

#[test]
fn identity_check_encodes_to_expected_wire_text() {
    let req = identity_check_request(&"a@b.com".to_string(), &"a".to_string());
    let enc = encode_request(&req).unwrap();
    assert_eq!(
        enc,
        "{\"table\":\"auth_users\",\"action\":\"Retrieve\",\"values\":null,\
         \"filters\":{\"where_clause\":{\"Or\":[{\"email\":\"a@b.com\"},{\"username\":\"a\"}]}}}"
    );
}

#[test]
fn insert_encodes_numbers_and_booleans() {
    let req = insert_auth_request(&sample_user());
    let enc = encode_request(&req).unwrap();
    assert_eq!(
        enc,
        "{\"table\":\"auth_users\",\"action\":\"Insert\",\"values\":{\"uid\":1234567890123,\
         \"email\":\"a@b.com\",\"username\":\"a\",\"email_verified\":false,\
         \"password_hash\":\"$2b$12$abcdefghijklmnopqrstuv\"},\"filters\":null}"
    );
}

#[test]
fn request_round_trips_through_the_codec() {
    let req = identity_check_request(&"a@b.com".to_string(), &"a".to_string());
    let enc = encode_request(&req).unwrap();
    let back = decode_request(&enc).unwrap();
    assert_eq!(back.table, "auth_users");
    assert!(matches!(back.action, DatabaseAction::Retrieve));
    assert!(back.values.is_none());
    match &back.filters {
        Some(WhereClause::Or(ps)) => {
            assert_eq!(ps.len(), 2);
            assert_eq!(ps[0].0, "email");
            assert!(matches!(&ps[0].1, Value::VStr(s) if s == "a@b.com"));
            assert_eq!(ps[1].0, "username");
            assert!(matches!(&ps[1].1, Value::VStr(s) if s == "a"));
        },
        _ => panic!("wrong filter shape"),
    }
    let re = encode_request(&back).unwrap();
    assert_eq!(re, enc);
}

#[test]
fn insert_round_trips_through_the_codec() {
    let req = insert_auth_request(&sample_user());
    let enc = encode_request(&req).unwrap();
    let back = decode_request(&enc).unwrap();
    assert!(matches!(back.action, DatabaseAction::Insert));
    let vs = back.values.as_ref().unwrap();
    assert_eq!(vs.len(), 5);
    assert!(matches!(&vs[0].1, Value::VNum(1234567890123)));
    assert!(matches!(&vs[3].1, Value::VBool(false)));
    assert_eq!(encode_request(&back).unwrap(), enc);
}

#[test]
fn response_round_trips_through_the_codec() {
    let resp = DatabaseResponse::Data(vec![sample_user()]);
    let enc = encode_response(&resp).unwrap();
    assert_eq!(
        enc,
        "{\"data\":[{\"uid\":1234567890123,\"email\":\"a@b.com\",\"username\":\"a\",\
         \"email_verified\":false,\"password_hash\":\"$2b$12$abcdefghijklmnopqrstuv\"}]}"
    );
    match decode_response(&enc).unwrap() {
        DatabaseResponse::Data(rows) => {
            assert_eq!(rows.len(), 1);
            assert_eq!(rows[0].uid, 1234567890123);
            assert_eq!(rows[0].email, "a@b.com");
        },
        _ => panic!("wrong variant"),
    }
}

#[test]
fn empty_payload_round_trips() {
    let resp = DatabaseResponse::Data(vec![]);
    let enc = encode_response(&resp).unwrap();
    assert_eq!(enc, "{\"data\":[]}");
    match decode_response(&enc).unwrap() {
        DatabaseResponse::Data(rows) => assert!(rows.is_empty()),
        _ => panic!("wrong variant"),
    }
}

#[test]
fn error_reply_round_trips_and_is_flagged() {
    let resp = DatabaseResponse::Error("boom".to_string());
    let enc = encode_response(&resp).unwrap();
    assert_eq!(enc, "{\"error\":\"boom\"}");
    let back = decode_response(&enc).unwrap();
    assert!(back.is_error());
    assert_eq!(back.error_message().unwrap(), "boom");
}

#[test]
fn encoding_refuses_a_string_with_no_wire_form() {
    let req = DatabaseRequest {
        table: "auth_\"users".to_string(),
        action: DatabaseAction::Retrieve,
        values: None,
        filters: None,
    };
    assert!(encode_request(&req).is_err());
}

#[test]
fn decoding_refuses_garbage() {
    assert!(decode_response("not a reply").is_err());
    assert!(decode_response("{\"data\":[").is_err());
    assert!(decode_response("").is_err());
    assert!(decode_request("{\"table\":42}").is_err());
}

#[test]
fn decoding_refuses_a_reply_with_trailing_text() {
    assert!(decode_response("{\"data\":[]}x").is_err());
}
