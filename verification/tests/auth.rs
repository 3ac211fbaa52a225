use eve_server::auth::{verify_bearer, AccountId};
use eve_server::response::StatusCode;
use eve_server::session::{Session, SessionContent, SessionData, StoredSession};

fn session_of(account_id: Option<i32>) -> Session {
    let stored = StoredSession { content: SessionContent::Valid(SessionData { account_id }), expiry: 10 };
    Session::resolve(Some("token".to_string()), Some(stored), 0).0
}

#[test]
fn session_with_account_seven_resolves_to_seven() {
    let session = session_of(Some(7));
    assert_eq!(AccountId::from_request(None, &session).ok(), Some(AccountId(7)));
    assert_eq!(AccountId::from_request_optional(None, &session), Some(AccountId(7)));
    assert_eq!(AccountId::resolve(None, &session), Some(AccountId(7)));
}

#[test]
fn no_credentials_is_none_when_optional_and_unauthorized_when_required() {
    let session = Session::anonymous();
    assert_eq!(AccountId::from_request_optional(None, &session), None);
    let refusal = AccountId::from_request(None, &session).err().unwrap();
    assert_eq!(refusal.status_code, StatusCode::Unauthorized);
    assert_eq!(refusal.status_code.as_u16(), 401);
    assert!(!refusal.body.success);
    assert_eq!(refusal.body.message, "Not authorized.");
}

#[test]
fn session_without_account_is_anonymous() {
    let session = session_of(None);
    assert_eq!(AccountId::from_request_optional(None, &session), None);
    assert!(AccountId::from_request(None, &session).is_err());
}

#[test]
fn bearer_verdict_takes_precedence_over_the_session() {
    let session = session_of(Some(7));
    assert_eq!(AccountId::resolve(Some(Some(AccountId(3))), &session), Some(AccountId(3)));
    assert_eq!(AccountId::resolve(Some(None), &session), None);
    assert_eq!(AccountId::resolve(Some(Some(AccountId(3))), &Session::anonymous()), Some(AccountId(3)));
}

#[test]
fn every_bearer_value_is_rejected() {
    assert_eq!(verify_bearer("Bearer abc"), None);
    assert_eq!(verify_bearer(""), None);
}

#[test]
fn authorization_header_fails_closed_even_with_a_valid_session() {
    let session = session_of(Some(7));
    assert_eq!(AccountId::from_request_optional(Some("Bearer abc"), &session), None);
    let refusal = AccountId::from_request(Some("Bearer abc"), &session).err().unwrap();
    assert_eq!(refusal.status_code, StatusCode::Unauthorized);
    assert_eq!(refusal.body.message, "Not authorized.");
}
