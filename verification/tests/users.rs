use eve_server::auth::AccountId;
use eve_server::password::{check_password, hash_password, BCRYPT_COST};
use eve_server::response::{ErrorKind, ErrorResponse, StatusCode};
use eve_server::session::{Session, SessionContent, SessionData};
use eve_server::session_store::SessionStore;
use eve_server::users::{
    check_username_free, decide_login, display_name_for, get_user, known_account, post_login,
    post_user, post_users, present_user, AccountTable, CreateUserRequest, LoginRequest,
    PublicUser, UpdateUserRequest,
};

const T0: i64 = 1_700_000_000_000_000;
const PLACEHOLDER_HASH: &str = "$2b$04$EGdrhbKUv8Oc9vGiXX0HQOxSg445d458Muh7DAHskb6QbtCvdxcie";

fn table_with(names: &[&str]) -> AccountTable {
    let mut accounts = AccountTable::new();
    for name in names {
        accounts.register(name.to_string(), None, PLACEHOLDER_HASH.to_string()).ok().unwrap();
    }
    accounts
}

#[test]
fn cost_is_ten() {
    assert_eq!(BCRYPT_COST, 10);
}

#[test]
fn a_hash_matches_its_password_only() {
    let hash = hash_password("correct horse").ok().unwrap();
    assert_ne!(hash, "correct horse");
    assert!(hash.starts_with("$2b$10$"));
    assert_eq!(hash.len(), 60);
    assert_eq!(check_password("correct horse", &hash).ok(), Some(true));
    assert_eq!(check_password("wrong horse", &hash).ok(), Some(false));
}

#[test]
fn a_known_hash_is_checked() {
    assert_eq!(check_password("correctbatteryhorsestapler", PLACEHOLDER_HASH).ok(), Some(true));
    assert_eq!(check_password("password", PLACEHOLDER_HASH).ok(), Some(false));
}

#[test]
fn an_unreadable_hash_fails_the_check() {
    let failure = check_password("password", "not a hash").err().unwrap();
    assert_eq!(failure.status_code, StatusCode::InternalServerError);
    assert_eq!(failure.body.message, "Failed to verify password.");
}

#[test]
fn registration_stores_the_account_with_a_matching_hash() {
    let mut accounts = AccountTable::new();
    let request = CreateUserRequest {
        username: "alice".to_string(),
        display_name: Some("Alice A.".to_string()),
        password: "wonderland".to_string(),
    };
    let created = post_users(&mut accounts, request).ok().unwrap();
    assert!(created.success);
    assert_eq!(created.data.username, "alice");
    assert_eq!(created.data.display_name, "Alice A.");
    let (id, hash) = accounts.credentials(&"alice".to_string()).unwrap();
    assert_eq!(id, 1);
    assert_eq!(check_password("wonderland", &hash).ok(), Some(true));
}

#[test]
fn display_name_defaults_to_the_username() {
    let mut accounts = AccountTable::new();
    let user = accounts.register("bob".to_string(), None, PLACEHOLDER_HASH.to_string()).ok().unwrap();
    assert_eq!(user.username, "bob");
    assert_eq!(user.display_name, "bob");
    assert_eq!(accounts.find(1).unwrap().display_name, "bob");
}

#[test]
fn a_username_in_use_is_refused() {
    let mut accounts = table_with(&["alice"]);
    let failure = accounts
        .register("alice".to_string(), Some("Other".to_string()), PLACEHOLDER_HASH.to_string())
        .err()
        .unwrap();
    assert_eq!(failure.status_code, StatusCode::BadRequest);
    assert_eq!(failure.body.message, "Username is already used.");
    assert_eq!(failure.kind(), Some(ErrorKind::ValidationError));
    assert_eq!(accounts.find(1).unwrap().display_name, "alice");
    assert!(accounts.find(2).is_none());
    let next = accounts.register("bob".to_string(), None, PLACEHOLDER_HASH.to_string()).ok().unwrap();
    assert_eq!(next.username, "bob");
    assert_eq!(accounts.credentials(&"bob".to_string()).unwrap().0, 2);
}

#[test]
fn login_decision_follows_the_password_check() {
    assert_eq!(decide_login(7, Ok(true)).ok().unwrap().account_id, Some(7));
    let refusal = decide_login(7, Ok(false)).err().unwrap();
    assert_eq!(refusal.status_code, StatusCode::Unauthorized);
    assert_eq!(refusal.body.message, "Invalid username or password.");
    let failed = ErrorResponse::from(StatusCode::InternalServerError, "Failed to verify password.");
    let passed = decide_login(7, Err(failed)).err().unwrap();
    assert_eq!(passed.status_code, StatusCode::InternalServerError);
    assert_eq!(passed.body.message, "Failed to verify password.");
}

#[test]
fn login_writes_the_account_to_the_session_and_commits_it() {
    let accounts = table_with(&["carol", "alice"]);
    let mut sessions = SessionStore::new();
    let mut session = Session::anonymous();
    let request = LoginRequest {
        username: "alice".to_string(),
        password: "correctbatteryhorsestapler".to_string(),
    };
    let response = post_login(&accounts, &mut sessions, &mut session, request, T0).ok().unwrap();
    assert!(response.success);
    assert_eq!(session.get().account_id, Some(2));
    let token = session.id().unwrap();
    assert_eq!(token.chars().count(), 36);
    let stored = sessions.lookup(&token).unwrap();
    assert!(matches!(stored.content, SessionContent::Valid(SessionData { account_id: Some(2) })));
    assert_eq!(stored.expiry, T0 + 86_400_000_000);
    let resolved = sessions.resolve(Some(token.clone()), T0 + 1);
    assert_eq!(resolved.id(), Some(token));
    assert_eq!(resolved.get().account_id, Some(2));
}

#[test]
fn login_keeps_the_token_of_an_existing_session() {
    let accounts = table_with(&["alice"]);
    let mut sessions = SessionStore::new();
    let token = sessions.commit(None, SessionData { account_id: None }, T0);
    let mut session = sessions.resolve(Some(token.clone()), T0);
    let request = LoginRequest {
        username: "alice".to_string(),
        password: "correctbatteryhorsestapler".to_string(),
    };
    post_login(&accounts, &mut sessions, &mut session, request, T0 + 5).ok().unwrap();
    assert_eq!(session.id(), Some(token.clone()));
    assert_eq!(sessions.len(), 1);
    assert_eq!(sessions.lookup(&token).unwrap().expiry, T0 + 5 + 86_400_000_000);
}

#[test]
fn login_with_wrong_password_or_unknown_user_is_unauthorized() {
    let accounts = table_with(&["alice"]);
    let mut sessions = SessionStore::new();
    let mut session = Session::anonymous();
    let wrong = LoginRequest { username: "alice".to_string(), password: "guess".to_string() };
    let failure = post_login(&accounts, &mut sessions, &mut session, wrong, T0).err().unwrap();
    assert_eq!(failure.status_code, StatusCode::Unauthorized);
    assert_eq!(failure.body.message, "Invalid username or password.");
    let unknown = LoginRequest { username: "mallory".to_string(), password: "guess".to_string() };
    let failure = post_login(&accounts, &mut sessions, &mut session, unknown, T0).err().unwrap();
    assert_eq!(failure.status_code, StatusCode::Unauthorized);
    assert_eq!(failure.body.message, "Invalid username or password.");
    assert_eq!(session.id(), None);
    assert_eq!(session.get().account_id, None);
    assert_eq!(sessions.len(), 0);
}

#[test]
fn login_against_an_unreadable_hash_fails() {
    let mut accounts = AccountTable::new();
    accounts.register("alice".to_string(), None, "garbage".to_string()).ok().unwrap();
    let mut sessions = SessionStore::new();
    let mut session = Session::anonymous();
    let request = LoginRequest { username: "alice".to_string(), password: "any".to_string() };
    let failure = post_login(&accounts, &mut sessions, &mut session, request, T0).err().unwrap();
    assert_eq!(failure.status_code, StatusCode::InternalServerError);
    assert_eq!(failure.body.message, "Failed to verify password.");
    assert_eq!(sessions.len(), 0);
}

#[test]
fn anonymous_caller_has_no_user() {
    let accounts = table_with(&["alice"]);
    let response = get_user(&accounts, None).ok().unwrap();
    assert!(response.success);
    assert!(response.data.is_none());
}

#[test]
fn caller_sees_their_own_account() {
    let accounts = table_with(&["alice", "bob"]);
    let user = get_user(&accounts, Some(AccountId(2))).ok().unwrap().data.unwrap();
    assert_eq!(user.username, "bob");
    assert_eq!(user.display_name, "bob");
}

#[test]
fn an_identity_without_account_is_an_error() {
    let accounts = table_with(&["alice"]);
    let failure = get_user(&accounts, Some(AccountId(5))).err().unwrap();
    assert_eq!(failure.status_code, StatusCode::InternalServerError);
    assert_eq!(failure.body.message, "Invalid account.");
}

#[test]
fn update_writes_given_fields_and_keeps_the_rest() {
    let mut accounts = table_with(&["alice", "bob"]);
    let only_name = UpdateUserRequest {
        username: None,
        display_name: Some("Alice A.".to_string()),
        password: None,
    };
    let updated = post_user(&mut accounts, AccountId(1), only_name).ok().unwrap();
    assert!(updated.success);
    assert_eq!(updated.data.username, "alice");
    assert_eq!(updated.data.display_name, "Alice A.");
    assert_eq!(accounts.credentials(&"alice".to_string()).unwrap().1, PLACEHOLDER_HASH);

    let only_username = UpdateUserRequest {
        username: Some("alicia".to_string()),
        display_name: None,
        password: None,
    };
    let updated = post_user(&mut accounts, AccountId(1), only_username).ok().unwrap().data;
    assert_eq!(updated.username, "alicia");
    assert_eq!(updated.display_name, "Alice A.");
    assert!(accounts.credentials(&"alice".to_string()).is_none());
    assert_eq!(accounts.credentials(&"alicia".to_string()).unwrap().0, 1);
    assert_eq!(accounts.find(2).unwrap().username, "bob");
}

#[test]
fn update_of_the_password_stores_a_matching_hash() {
    let mut accounts = table_with(&["alice"]);
    let request = UpdateUserRequest {
        username: None,
        display_name: None,
        password: Some("new secret".to_string()),
    };
    let updated = post_user(&mut accounts, AccountId(1), request).ok().unwrap().data;
    assert_eq!(updated.username, "alice");
    let hash = accounts.credentials(&"alice".to_string()).unwrap().1;
    assert_ne!(hash, PLACEHOLDER_HASH);
    assert_eq!(check_password("new secret", &hash).ok(), Some(true));
}

#[test]
fn update_to_a_username_of_another_account_is_refused() {
    let mut accounts = table_with(&["alice", "bob"]);
    let request = UpdateUserRequest {
        username: Some("bob".to_string()),
        display_name: Some("Impostor".to_string()),
        password: None,
    };
    let failure = post_user(&mut accounts, AccountId(1), request).err().unwrap();
    assert_eq!(failure.status_code, StatusCode::BadRequest);
    assert_eq!(failure.body.message, "Failed to update user.");
    assert_eq!(accounts.find(1).unwrap().username, "alice");
    assert_eq!(accounts.find(1).unwrap().display_name, "alice");
}

#[test]
fn update_to_the_own_username_is_accepted() {
    let mut accounts = table_with(&["alice", "bob"]);
    let request = UpdateUserRequest {
        username: Some("alice".to_string()),
        display_name: None,
        password: None,
    };
    let updated = post_user(&mut accounts, AccountId(1), request).ok().unwrap().data;
    assert_eq!(updated.username, "alice");
}

#[test]
fn update_of_a_missing_account_is_refused() {
    let mut accounts = table_with(&["alice"]);
    let request = UpdateUserRequest { username: None, display_name: None, password: None };
    let failure = post_user(&mut accounts, AccountId(9), request).err().unwrap();
    assert_eq!(failure.status_code, StatusCode::BadRequest);
    assert_eq!(failure.body.message, "Failed to update user.");
}

#[test]
fn username_check_and_display_name_default() {
    assert!(check_username_free(false).is_ok());
    let refusal = check_username_free(true).err().unwrap();
    assert_eq!(refusal.status_code, StatusCode::BadRequest);
    assert_eq!(refusal.body.message, "Username is already used.");
    assert_eq!(display_name_for(None, &"alice".to_string()), "alice");
    assert_eq!(display_name_for(Some("A".to_string()), &"alice".to_string()), "A");
    assert_eq!(display_name_for(Some(String::new()), &"alice".to_string()), "");
}

#[test]
fn lookups_that_find_nothing_are_refused() {
    let found = known_account(Some((3, "hash".to_string()))).ok().unwrap();
    assert_eq!(found, (3, "hash".to_string()));
    let refusal = known_account(None).err().unwrap();
    assert_eq!(refusal.status_code, StatusCode::Unauthorized);
    assert_eq!(refusal.body.message, "Invalid username or password.");

    let user = PublicUser { username: "alice".to_string(), display_name: "A".to_string() };
    let shown = present_user(Some(user)).ok().unwrap();
    assert!(shown.success);
    assert_eq!(shown.data.as_ref().unwrap().username, "alice");
    assert_eq!(shown.data.as_ref().unwrap().display_name, "A");
    let failure = present_user(None).err().unwrap();
    assert_eq!(failure.status_code, StatusCode::InternalServerError);
    assert_eq!(failure.body.message, "Invalid account.");
}

#[test]
fn registration_under_a_username_in_use_is_refused() {
    let mut accounts = table_with(&["alice"]);
    assert!(accounts.has_username(&"alice".to_string()));
    assert!(!accounts.has_username(&"bob".to_string()));
    let request = CreateUserRequest {
        username: "alice".to_string(),
        display_name: None,
        password: "another".to_string(),
    };
    let failure = post_users(&mut accounts, request).err().unwrap();
    assert_eq!(failure.status_code, StatusCode::BadRequest);
    assert_eq!(failure.body.message, "Username is already used.");
    assert_eq!(accounts.credentials(&"alice".to_string()).unwrap().1, PLACEHOLDER_HASH);
    assert!(accounts.find(2).is_none());
}
