use eve_server::response::ErrorKind;
use eve_server::session::{
    get_session_cookie_key, Session, SessionContent, SessionData, SessionLookup, SessionRow,
    StoredSession, SESSION_LIFETIME, SESSION_REFRESH_THRESHOLD,
};
use eve_server::session_store::SessionStore;

const HOUR: i64 = 3_600_000_000;
const T0: i64 = 1_700_000_000_000_000;

fn account_of(content: SessionContent) -> Option<i32> {
    match content {
        SessionContent::Valid(data) => data.account_id,
        SessionContent::Corrupt => panic!("corrupt content"),
    }
}

#[test]
fn lifetime_is_a_day_and_threshold_half_of_it() {
    assert_eq!(SESSION_LIFETIME, 24 * HOUR);
    assert_eq!(SESSION_REFRESH_THRESHOLD, 12 * HOUR);
}

#[test]
fn cookie_key_defaults_to_eve_session_id() {
    assert_eq!(get_session_cookie_key(None), "EVE_SESSION_ID");
    assert_eq!(get_session_cookie_key(Some("SID".to_string())), "SID");
}

#[test]
fn default_session_data_is_anonymous() {
    assert_eq!(SessionData::default().account_id, None);
    let session = Session::anonymous();
    assert_eq!(session.get().account_id, None);
    assert_eq!(session.id(), None);
}

#[test]
fn commit_then_resolve_returns_token_and_data() {
    let mut store = SessionStore::new();
    let token = store.commit(None, SessionData { account_id: Some(7) }, T0);
    let session = store.resolve(Some(token.clone()), T0);
    assert_eq!(session.id(), Some(token));
    assert_eq!(session.get().account_id, Some(7));
}

#[test]
fn fresh_tokens_are_hyphenated_and_differ() {
    let mut store = SessionStore::new();
    let first = store.commit(None, SessionData { account_id: Some(1) }, T0);
    let second = store.commit(None, SessionData { account_id: Some(2) }, T0);
    assert_eq!(first.chars().count(), 36);
    assert_eq!(second.chars().count(), 36);
    assert_ne!(first, second);
    let hyphens: Vec<usize> =
        first.char_indices().filter(|(_, c)| *c == '-').map(|(i, _)| i).collect();
    assert_eq!(hyphens, vec![8, 13, 18, 23]);
    assert_eq!(store.len(), 2);
}

#[test]
fn commit_under_an_existing_token_overwrites_the_row() {
    let mut store = SessionStore::new();
    let token = store.commit(None, SessionData { account_id: Some(7) }, T0);
    let again = store.commit(Some(token.clone()), SessionData { account_id: None }, T0 + HOUR);
    assert_eq!(again, token);
    assert_eq!(store.len(), 1);
    let stored = store.lookup(&token).unwrap();
    assert_eq!(account_of(stored.content), None);
    assert_eq!(stored.expiry, T0 + HOUR + SESSION_LIFETIME);
    let session = store.resolve(Some(token.clone()), T0 + HOUR);
    assert_eq!(session.id(), Some(token));
    assert_eq!(session.get().account_id, None);
}

#[test]
fn commit_under_a_token_of_the_callers_choice_creates_the_row() {
    let mut store = SessionStore::new();
    let token = store.commit(Some("chosen".to_string()), SessionData { account_id: Some(3) }, T0);
    assert_eq!(token, "chosen");
    let stored = store.lookup(&token).unwrap();
    assert_eq!(account_of(stored.content), Some(3));
    assert_eq!(stored.expiry, T0 + SESSION_LIFETIME);
}

#[test]
fn expired_session_resolves_like_no_cookie() {
    let mut store = SessionStore::new();
    let token = store.commit(None, SessionData { account_id: Some(7) }, T0);
    let at_expiry = T0 + SESSION_LIFETIME;
    let expired = store.resolve(Some(token.clone()), at_expiry);
    let absent = store.resolve(None, at_expiry);
    assert_eq!(expired.id(), None);
    assert_eq!(expired.get().account_id, None);
    assert_eq!(absent.id(), None);
    assert_eq!(absent.get().account_id, None);
    assert_eq!(store.lookup(&token).unwrap().expiry, at_expiry);
    let later = store.resolve(Some(token.clone()), at_expiry + HOUR);
    assert_eq!(later.id(), None);
    assert_eq!(store.lookup(&token).unwrap().expiry, at_expiry);
}

#[test]
fn session_is_live_until_just_before_expiry() {
    let mut store = SessionStore::new();
    let token = store.commit(None, SessionData { account_id: Some(7) }, T0);
    let session = store.resolve(Some(token.clone()), T0 + SESSION_LIFETIME - 1);
    assert_eq!(session.id(), Some(token));
    assert_eq!(session.get().account_id, Some(7));
}

#[test]
fn unknown_token_resolves_to_the_anonymous_session() {
    let mut store = SessionStore::new();
    store.commit(None, SessionData { account_id: Some(7) }, T0);
    let session = store.resolve(Some("no-such-token".to_string()), T0);
    assert_eq!(session.id(), None);
    assert_eq!(session.get().account_id, None);
    assert_eq!(store.len(), 1);
}

#[test]
fn resolve_renews_a_session_with_less_than_twelve_hours_left() {
    let mut store = SessionStore::new();
    let token = store.commit(None, SessionData { account_id: Some(7) }, T0);
    let now = T0 + 12 * HOUR + 1;
    let session = store.resolve(Some(token.clone()), now);
    assert_eq!(session.id(), Some(token.clone()));
    assert_eq!(session.get().account_id, Some(7));
    let stored = store.lookup(&token).unwrap();
    assert_eq!(stored.expiry, now + SESSION_LIFETIME);
    assert_eq!(account_of(stored.content), Some(7));
}

#[test]
fn resolve_leaves_a_session_with_twelve_hours_or_more_left() {
    let mut store = SessionStore::new();
    let token = store.commit(None, SessionData { account_id: Some(7) }, T0);
    store.resolve(Some(token.clone()), T0 + 12 * HOUR);
    assert_eq!(store.lookup(&token).unwrap().expiry, T0 + SESSION_LIFETIME);
    store.resolve(Some(token.clone()), T0 + HOUR);
    assert_eq!(store.lookup(&token).unwrap().expiry, T0 + SESSION_LIFETIME);
}

#[test]
fn renewal_touches_no_other_row() {
    let mut store = SessionStore::new();
    let old = store.commit(None, SessionData { account_id: Some(1) }, T0);
    let other = store.commit(None, SessionData { account_id: Some(2) }, T0 + HOUR);
    store.resolve(Some(old.clone()), T0 + 20 * HOUR);
    assert_eq!(store.lookup(&old).unwrap().expiry, T0 + 20 * HOUR + SESSION_LIFETIME);
    assert_eq!(store.lookup(&other).unwrap().expiry, T0 + HOUR + SESSION_LIFETIME);
}

#[test]
fn corrupt_content_resolves_anonymous_but_is_renewed() {
    let mut store = SessionStore::new();
    store.upsert(SessionRow {
        id: "broken".to_string(),
        content: SessionContent::Corrupt,
        expiry: T0 + HOUR,
    });
    let session = store.resolve(Some("broken".to_string()), T0);
    assert_eq!(session.id(), None);
    assert_eq!(session.get().account_id, None);
    let stored = store.lookup(&"broken".to_string()).unwrap();
    assert!(matches!(stored.content, SessionContent::Corrupt));
    assert_eq!(stored.expiry, T0 + SESSION_LIFETIME);
}

#[test]
fn resolve_from_a_row_gives_session_and_renewal() {
    let stored =
        StoredSession { content: SessionContent::Valid(SessionData { account_id: Some(9) }), expiry: T0 + HOUR };
    let (session, renewed) = Session::resolve(Some("t".to_string()), Some(stored), T0);
    assert_eq!(session.id(), Some("t".to_string()));
    assert_eq!(session.get().account_id, Some(9));
    assert_eq!(renewed, Some(T0 + SESSION_LIFETIME));

    let fresh = StoredSession { content: stored.content, expiry: T0 + 12 * HOUR };
    let (session, renewed) = Session::resolve(Some("t".to_string()), Some(fresh), T0);
    assert_eq!(session.get().account_id, Some(9));
    assert_eq!(renewed, None);

    let (session, renewed) = Session::resolve(Some("t".to_string()), None, T0);
    assert_eq!(session.id(), None);
    assert_eq!(renewed, None);

    let (session, renewed) = Session::resolve(None, Some(stored), T0);
    assert_eq!(session.id(), None);
    assert_eq!(session.get().account_id, None);
    assert_eq!(renewed, None);

    let expired = StoredSession { content: stored.content, expiry: T0 };
    let (session, renewed) = Session::resolve(Some("t".to_string()), Some(expired), T0);
    assert_eq!(session.id(), None);
    assert_eq!(renewed, None);
}

#[test]
fn set_assigns_a_token_once_and_returns_the_row_to_store() {
    let mut session = Session::anonymous();
    let row = session.set(SessionData { account_id: Some(5) }, T0);
    assert_eq!(row.id.chars().count(), 36);
    assert_eq!(account_of(row.content), Some(5));
    assert_eq!(row.expiry, T0 + SESSION_LIFETIME);
    assert_eq!(session.id(), Some(row.id.clone()));
    assert_eq!(session.get().account_id, Some(5));

    let again = session.set(SessionData { account_id: None }, T0 + HOUR);
    assert_eq!(again.id, row.id);
    assert_eq!(account_of(again.content), None);
    assert_eq!(again.expiry, T0 + HOUR + SESSION_LIFETIME);
    assert_eq!(session.get().account_id, None);
}

#[test]
fn logout_keeps_the_token_usable_within_its_lifetime() {
    let mut store = SessionStore::new();
    let token = store.commit(None, SessionData { account_id: Some(7) }, T0);
    store.commit(Some(token.clone()), SessionData { account_id: None }, T0 + HOUR);
    let session = store.resolve(Some(token.clone()), T0 + 2 * HOUR);
    assert_eq!(session.id(), Some(token));
    assert_eq!(session.get().account_id, None);
}

#[test]
fn lookup_tells_valid_absent_and_corrupt_apart() {
    let cookie = Some("t".to_string());
    let valid =
        StoredSession { content: SessionContent::Valid(SessionData { account_id: Some(4) }), expiry: T0 + 1 };
    let corrupt = StoredSession { content: SessionContent::Corrupt, expiry: T0 + 1 };
    let found = Session::look_up(&cookie, Some(valid), T0);
    assert!(matches!(found, SessionLookup::Valid(SessionData { account_id: Some(4) })));
    assert_eq!(found.failure(), None);
    let broken = Session::look_up(&cookie, Some(corrupt), T0);
    assert!(matches!(broken, SessionLookup::Corrupt));
    assert_eq!(broken.failure(), Some(ErrorKind::SerializationError));
    assert!(matches!(Session::look_up(&cookie, None, T0), SessionLookup::Absent));
    assert!(matches!(Session::look_up(&None, Some(valid), T0), SessionLookup::Absent));
    assert!(matches!(Session::look_up(&cookie, Some(valid), T0 + 1), SessionLookup::Absent));
    assert!(matches!(Session::look_up(&cookie, Some(corrupt), T0 + 1), SessionLookup::Absent));
    assert_eq!(Session::look_up(&cookie, None, T0).failure(), None);
}

#[test]
fn a_session_resolved_after_expiry_commits_under_a_new_token() {
    let mut store = SessionStore::new();
    let old = store.commit(None, SessionData { account_id: Some(7) }, T0);
    let resolved = store.resolve(Some(old.clone()), T0 + SESSION_LIFETIME + HOUR);
    assert_eq!(resolved.id(), None);
    let new = store.commit(resolved.id(), SessionData { account_id: Some(7) }, T0 + SESSION_LIFETIME + HOUR);
    assert_ne!(new, old);
    assert_eq!(store.len(), 2);
    assert_eq!(store.lookup(&old).unwrap().expiry, T0 + SESSION_LIFETIME);
    let again = store.resolve(Some(old), T0 + SESSION_LIFETIME + HOUR);
    assert_eq!(again.id(), None);
}
