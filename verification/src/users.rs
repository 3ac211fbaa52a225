//! Accounts: registration, login and self-service updates.

use crate::auth::AccountId;
use crate::password::{bcrypt_verify, check_password, hash_password};
use crate::response::{APIResponse, APIResult, ErrorResponse, StatusCode, SuccessResponse};
use crate::session::{text_of, Session, SessionData, SESSION_LIFETIME};
use crate::session_store::{committed, SessionStore};
use vstd::prelude::*;

verus! {

/// The body of a login request.
#[derive(Debug)]
pub struct LoginRequest {
    pub username: String,
    pub password: String,
}

/// An account as anyone may see it.
#[derive(Debug)]
pub struct PublicUser {
    pub username: String,
    pub display_name: String,
}

/// The body of a registration request.
#[derive(Debug)]
pub struct CreateUserRequest {
    pub username: String,
    pub display_name: Option<String>,
    pub password: String,
}

/// The body of a request that updates the caller's account. A field that is
/// absent is left as it is.
#[derive(Debug)]
pub struct UpdateUserRequest {
    pub username: Option<String>,
    pub display_name: Option<String>,
    pub password: Option<String>,
}

/// One row of the account table.
#[derive(Debug)]
pub struct AccountRow {
    pub id: i32,
    pub username: String,
    pub display_name: String,
    pub password_hash_and_salt: String,
}

/// An account row as a mathematical value.
pub struct AccountView {
    pub id: int,
    pub username: Seq<char>,
    pub display_name: Seq<char>,
    pub password_hash_and_salt: Seq<char>,
}

impl View for AccountRow {
    type V = AccountView;

    open spec fn view(&self) -> AccountView {
        AccountView {
            id: self.id as int,
            username: self.username@,
            display_name: self.display_name@,
            password_hash_and_salt: self.password_hash_and_salt@,
        }
    }
}

impl PublicUser {
    /// Whether this is the public form of the given row.
    pub open spec fn shows(self, row: AccountView) -> bool {
        &&& self.username@ == row.username
        &&& self.display_name@ == row.display_name
    }
}

/// The account table as a mathematical value: its rows in the order of
/// their creation, and the identifier that the next row gets.
pub struct AccountsView {
    pub rows: Seq<AccountView>,
    pub next_id: int,
}

/// The given text, or the fallback where none is given.
pub open spec fn text_or(text: Option<Seq<char>>, fallback: Seq<char>) -> Seq<char> {
    match text {
        Some(t) => t,
        None => fallback,
    }
}

/// Whether some account has this username.
pub open spec fn has_username(rows: Seq<AccountView>, username: Seq<char>) -> bool {
    exists|i: int| 0 <= i < rows.len() && (#[trigger] rows[i]).username == username
}

/// The index of the account with this username.
pub open spec fn index_of_username(rows: Seq<AccountView>, username: Seq<char>) -> int {
    choose|i: int| 0 <= i < rows.len() && (#[trigger] rows[i]).username == username
}

/// Whether some account has this identifier.
pub open spec fn has_account(rows: Seq<AccountView>, id: int) -> bool {
    exists|i: int| 0 <= i < rows.len() && (#[trigger] rows[i]).id == id
}

/// The index of the account with this identifier.
pub open spec fn index_of_account(rows: Seq<AccountView>, id: int) -> int {
    choose|i: int| 0 <= i < rows.len() && (#[trigger] rows[i]).id == id
}

/// Whether an account other than the one with this identifier has the
/// username.
pub open spec fn username_taken_by_other(
    rows: Seq<AccountView>,
    id: int,
    username: Seq<char>,
) -> bool {
    exists|i: int|
        0 <= i < rows.len() && (#[trigger] rows[i]).username == username && rows[i].id != id
}

/// The table's invariant: identifiers are positive, below the next one to be
/// handed out, and pairwise distinct, and so are usernames.
pub open spec fn accounts_valid(table: AccountsView) -> bool {
    &&& 1 <= table.next_id
    &&& forall|i: int|
        0 <= i < table.rows.len() ==> 1 <= (#[trigger] table.rows[i]).id < table.next_id
    &&& forall|i: int, j: int|
        0 <= i < j < table.rows.len() ==> (#[trigger] table.rows[i]).id != (
        #[trigger] table.rows[j]).id
    &&& forall|i: int, j: int|
        0 <= i < j < table.rows.len() ==> (#[trigger] table.rows[i]).username != (
        #[trigger] table.rows[j]).username
}

/// The table after an account has been registered.
pub open spec fn account_created(
    table: AccountsView,
    username: Seq<char>,
    display_name: Seq<char>,
    password_hash_and_salt: Seq<char>,
) -> AccountsView {
    AccountsView {
        rows: table.rows.push(
            AccountView { id: table.next_id, username, display_name, password_hash_and_salt },
        ),
        next_id: table.next_id + 1,
    }
}

/// The row that `current` becomes when the given fields are written and the
/// absent ones are kept.
pub open spec fn rewritten_account(
    current: AccountView,
    username: Option<Seq<char>>,
    display_name: Option<Seq<char>>,
    password_hash_and_salt: Option<Seq<char>>,
) -> AccountView {
    AccountView {
        id: current.id,
        username: text_or(username, current.username),
        display_name: text_or(display_name, current.display_name),
        password_hash_and_salt: text_or(password_hash_and_salt, current.password_hash_and_salt),
    }
}

/// The table after the account with this identifier has been rewritten:
/// that row changes in place, and no other does.
pub open spec fn account_updated(
    table: AccountsView,
    id: int,
    username: Option<Seq<char>>,
    display_name: Option<Seq<char>>,
    password_hash_and_salt: Option<Seq<char>>,
) -> AccountsView {
    let at = index_of_account(table.rows, id);
    AccountsView {
        rows: table.rows.update(
            at,
            rewritten_account(table.rows[at], username, display_name, password_hash_and_salt),
        ),
        next_id: table.next_id,
    }
}

/// Whether the account can be rewritten with this username: it exists, and
/// the username, if one is given, belongs to no other account.
pub open spec fn can_rewrite_account(
    table: AccountsView,
    id: int,
    username: Option<Seq<char>>,
) -> bool {
    &&& has_account(table.rows, id)
    &&& username matches Some(name) ==> !username_taken_by_other(table.rows, id, name)
}

/// The account table, held in memory.
pub struct AccountTable {
    rows: Vec<AccountRow>,
    next_id: i32,
}

impl View for AccountTable {
    type V = AccountsView;

    closed spec fn view(&self) -> AccountsView {
        AccountsView {
            rows: Seq::new(self.rows@.len(), |i: int| self.rows@[i]@),
            next_id: self.next_id as int,
        }
    }
}

/// Accepts a username for registration only if no account has it.
pub fn check_username_free(in_use: bool) -> (verdict: APIResult<()>)
    ensures
        match verdict {
            Ok(_) => !in_use,
            Err(refusal) => in_use && refusal.has(
                StatusCode::BadRequest,
                "Username is already used."@,
            ),
        },
{
    if in_use {
        return Err(ErrorResponse::from(StatusCode::BadRequest, "Username is already used."));
    }
    Ok(())
}

/// The display name of a new account: the one asked for, or the username
/// where none is.
pub fn display_name_for(display_name: Option<String>, username: &String) -> (name: String)
    ensures
        name@ == text_or(text_of(display_name), username@),
{
    match display_name {
        Some(name) => name,
        None => username.clone(),
    }
}

impl AccountRow {
    /// The public form of the row.
    pub fn public(&self) -> (user: PublicUser)
        ensures
            user.shows(self@),
    {
        PublicUser { username: self.username.clone(), display_name: self.display_name.clone() }
    }
}

impl AccountTable {
    /// Whether the table meets its invariant.
    pub open spec fn wf(&self) -> bool {
        accounts_valid(self@)
    }

    /// An empty table, whose first row will get the identifier 1.
    pub fn new() -> (table: Self)
        ensures
            table.wf(),
            table@ == (AccountsView { rows: Seq::empty(), next_id: 1 }),
    {
        let table = AccountTable { rows: Vec::new(), next_id: 1 };
        assert(table@.rows =~= Seq::empty());
        table
    }

    fn position_of_username(&self, username: &String) -> (at: Option<usize>)
        requires
            self.wf(),
        ensures
            match at {
                Some(i) => {
                    &&& i < self@.rows.len()
                    &&& self@.rows[i as int].username == username@
                    &&& has_username(self@.rows, username@)
                    &&& index_of_username(self@.rows, username@) == i
                },
                None => !has_username(self@.rows, username@),
            },
    {
        let mut i: usize = 0;
        while i < self.rows.len()
            invariant
                self.wf(),
                i <= self.rows@.len(),
                forall|j: int| 0 <= j < i ==> (#[trigger] self@.rows[j]).username != username@,
            decreases self.rows@.len() - i,
        {
            if self.rows[i].username == *username {
                proof {
                    assert(self@.rows[i as int].username == username@);
                    let found = index_of_username(self@.rows, username@);
                    if found < i {
                        assert(self@.rows[found].username != self@.rows[i as int].username);
                    } else if i < found {
                        assert(self@.rows[i as int].username != self@.rows[found].username);
                    }
                }
                return Some(i);
            }
            i += 1;
        }
        None
    }

    fn position_of_id(&self, id: i32) -> (at: Option<usize>)
        requires
            self.wf(),
        ensures
            match at {
                Some(i) => {
                    &&& i < self@.rows.len()
                    &&& self@.rows[i as int].id == id
                    &&& has_account(self@.rows, id as int)
                    &&& index_of_account(self@.rows, id as int) == i
                },
                None => !has_account(self@.rows, id as int),
            },
    {
        let mut i: usize = 0;
        while i < self.rows.len()
            invariant
                self.wf(),
                i <= self.rows@.len(),
                forall|j: int| 0 <= j < i ==> (#[trigger] self@.rows[j]).id != id,
            decreases self.rows@.len() - i,
        {
            if self.rows[i].id == id {
                proof {
                    assert(self@.rows[i as int].id == id);
                    let found = index_of_account(self@.rows, id as int);
                    if found < i {
                        assert(self@.rows[found].id != self@.rows[i as int].id);
                    } else if i < found {
                        assert(self@.rows[i as int].id != self@.rows[found].id);
                    }
                }
                return Some(i);
            }
            i += 1;
        }
        None
    }

    /// Whether some account has this username.
    pub fn has_username(&self, username: &String) -> (in_use: bool)
        requires
            self.wf(),
        ensures
            in_use == has_username(self@.rows, username@),
    {
        self.position_of_username(username).is_some()
    }

    /// The identifier and the stored hash of the account with this username.
    pub fn credentials(&self, username: &String) -> (found: Option<(i32, String)>)
        requires
            self.wf(),
        ensures
            match found {
                Some((id, hash)) => {
                    &&& has_username(self@.rows, username@)
                    &&& id == self@.rows[index_of_username(self@.rows, username@)].id
                    &&& hash@ == self@.rows[index_of_username(
                        self@.rows,
                        username@,
                    )].password_hash_and_salt
                },
                None => !has_username(self@.rows, username@),
            },
    {
        match self.position_of_username(username) {
            Some(at) => Some((self.rows[at].id, self.rows[at].password_hash_and_salt.clone())),
            None => None,
        }
    }

    /// The public form of the account with this identifier.
    pub fn find(&self, id: i32) -> (found: Option<PublicUser>)
        requires
            self.wf(),
        ensures
            match found {
                Some(user) => has_account(self@.rows, id as int) && user.shows(
                    self@.rows[index_of_account(self@.rows, id as int)],
                ),
                None => !has_account(self@.rows, id as int),
            },
    {
        match self.position_of_id(id) {
            Some(at) => Some(self.rows[at].public()),
            None => None,
        }
    }

    /// Registers an account under a username that no account has yet, with
    /// the username as display name where none is given.
    pub fn register(
        &mut self,
        username: String,
        display_name: Option<String>,
        password_hash_and_salt: String,
    ) -> (registered: APIResult<PublicUser>)
        requires
            old(self).wf(),
        ensures
            final(self).wf(),
            match registered {
                Ok(user) => {
                    &&& !has_username(old(self)@.rows, username@)
                    &&& old(self)@.next_id < i32::MAX
                    &&& final(self)@ == account_created(
                        old(self)@,
                        username@,
                        text_or(text_of(display_name), username@),
                        password_hash_and_salt@,
                    )
                    &&& user.shows(final(self)@.rows.last())
                },
                Err(failure) => {
                    &&& final(self)@ == old(self)@
                    &&& if has_username(old(self)@.rows, username@) {
                        failure.has(StatusCode::BadRequest, "Username is already used."@)
                    } else {
                        &&& old(self)@.next_id == i32::MAX
                        &&& failure.has(StatusCode::BadRequest, "Failed to create user."@)
                    }
                },
            },
    {
        check_username_free(self.position_of_username(&username).is_some())?;
        if self.next_id == i32::MAX {
            return Err(ErrorResponse::from(StatusCode::BadRequest, "Failed to create user."));
        }
        let id = self.next_id;
        let row = AccountRow {
            id,
            display_name: display_name_for(display_name, &username),
            username,
            password_hash_and_salt,
        };
        let user = row.public();
        self.rows.push(row);
        self.next_id = id + 1;
        proof {
            let expected = account_created(
                old(self)@,
                username@,
                text_or(text_of(display_name), username@),
                password_hash_and_salt@,
            );
            assert(self@.rows =~= expected.rows);
            assert forall|i: int, j: int| 0 <= i < j < self@.rows.len() implies (
            #[trigger] self@.rows[i]).id != (#[trigger] self@.rows[j]).id by {
                if j < old(self)@.rows.len() {
                    assert(old(self)@.rows[i].id != old(self)@.rows[j].id);
                } else {
                    assert(old(self)@.rows[i].id < old(self)@.next_id);
                }
            }
            assert forall|i: int, j: int| 0 <= i < j < self@.rows.len() implies (
            #[trigger] self@.rows[i]).username != (#[trigger] self@.rows[j]).username by {
                if j < old(self)@.rows.len() {
                    assert(old(self)@.rows[i].username != old(self)@.rows[j].username);
                } else {
                    assert(old(self)@.rows[i].username != username@);
                }
            }
        }
        Ok(user)
    }

    /// Rewrites the account with this identifier: each field that is given
    /// is written, each absent one is kept. Fails, and changes nothing,
    /// where the account does not exist or the username belongs to another
    /// account.
    pub fn update(
        &mut self,
        id: i32,
        username: Option<String>,
        display_name: Option<String>,
        password_hash_and_salt: Option<String>,
    ) -> (updated: APIResult<PublicUser>)
        requires
            old(self).wf(),
        ensures
            final(self).wf(),
            match updated {
                Ok(user) => {
                    &&& can_rewrite_account(old(self)@, id as int, text_of(username))
                    &&& final(self)@ == account_updated(
                        old(self)@,
                        id as int,
                        text_of(username),
                        text_of(display_name),
                        text_of(password_hash_and_salt),
                    )
                    &&& user.shows(final(self)@.rows[index_of_account(old(self)@.rows, id as int)])
                },
                Err(failure) => {
                    &&& !can_rewrite_account(old(self)@, id as int, text_of(username))
                    &&& final(self)@ == old(self)@
                    &&& failure.has(StatusCode::BadRequest, "Failed to update user."@)
                },
            },
    {
        let at = match self.position_of_id(id) {
            Some(at) => at,
            None => {
                return Err(ErrorResponse::from(StatusCode::BadRequest, "Failed to update user."));
            },
        };
        if let Some(name) = &username {
            match self.position_of_username(name) {
                Some(holder) => {
                    if holder != at {
                        assert(self@.rows[holder as int].username == name@);
                        assert(self@.rows[holder as int].id != self@.rows[at as int].id);
                        return Err(
                            ErrorResponse::from(StatusCode::BadRequest, "Failed to update user."),
                        );
                    }
                    proof {
                        lemma_sole_holder(self@, holder as int);
                    }
                },
                None => {},
            }
        }
        let row = AccountRow {
            id,
            username: match &username {
                Some(name) => name.clone(),
                None => self.rows[at].username.clone(),
            },
            display_name: match &display_name {
                Some(name) => name.clone(),
                None => self.rows[at].display_name.clone(),
            },
            password_hash_and_salt: match &password_hash_and_salt {
                Some(hash) => hash.clone(),
                None => self.rows[at].password_hash_and_salt.clone(),
            },
        };
        assert(row@ == rewritten_account(
            old(self)@.rows[at as int],
            text_of(username),
            text_of(display_name),
            text_of(password_hash_and_salt),
        ));
        let user = row.public();
        self.rows.set(at, row);
        proof {
            let before = old(self)@;
            let expected = account_updated(
                before,
                id as int,
                text_of(username),
                text_of(display_name),
                text_of(password_hash_and_salt),
            );
            assert(self@.rows =~= expected.rows);
            assert forall|i: int| 0 <= i < self@.rows.len() implies (#[trigger] self@.rows[i]).id
                == before.rows[i].id by {}
            assert forall|i: int, j: int| 0 <= i < j < self@.rows.len() implies (
            #[trigger] self@.rows[i]).id != (#[trigger] self@.rows[j]).id by {
                assert(before.rows[i].id != before.rows[j].id);
            }
            assert forall|i: int, j: int| 0 <= i < j < self@.rows.len() implies (
            #[trigger] self@.rows[i]).username != (#[trigger] self@.rows[j]).username by {
                assert(before.rows[i].username != before.rows[j].username);
                assert(before.rows[i].id != before.rows[j].id);
                if i == at && username is Some {
                    assert(self@.rows[j] == before.rows[j]);
                    if before.rows[j].username == username->0@ {
                        assert(username_taken_by_other(before.rows, id as int, username->0@));
                    }
                } else if j == at && username is Some {
                    assert(self@.rows[i] == before.rows[i]);
                    if before.rows[i].username == username->0@ {
                        assert(username_taken_by_other(before.rows, id as int, username->0@));
                    }
                }
            }
        }
        Ok(user)
    }
}

/// In a valid table, the account that has a username is the only one.
proof fn lemma_sole_holder(table: AccountsView, holder: int)
    requires
        accounts_valid(table),
        0 <= holder < table.rows.len(),
    ensures
        !username_taken_by_other(table.rows, table.rows[holder].id, table.rows[holder].username),
{
    if username_taken_by_other(table.rows, table.rows[holder].id, table.rows[holder].username) {
        let other = choose|i: int|
            0 <= i < table.rows.len() && (#[trigger] table.rows[i]).username
                == table.rows[holder].username && table.rows[i].id != table.rows[holder].id;
        if other < holder {
            assert(table.rows[other].username != table.rows[holder].username);
        } else if holder < other {
            assert(table.rows[holder].username != table.rows[other].username);
        }
    }
}


/// Whether a login with these credentials is accepted: an account has the
/// username, and the password matches its stored hash.
pub open spec fn login_accepted(
    rows: Seq<AccountView>,
    username: Seq<char>,
    password: Seq<char>,
) -> bool {
    &&& has_username(rows, username)
    &&& bcrypt_verify(password, rows[index_of_username(rows, username)].password_hash_and_salt)
        == Some(true)
}

/// Whether a login with these credentials cannot be decided, because the
/// hash stored for the account is unreadable.
pub open spec fn login_undecided(
    rows: Seq<AccountView>,
    username: Seq<char>,
    password: Seq<char>,
) -> bool {
    &&& has_username(rows, username)
    &&& bcrypt_verify(password, rows[index_of_username(rows, username)].password_hash_and_salt)
        is None
}

/// Decides a login for an account from the outcome of the password check:
/// a match gives the session payload of that account, a mismatch is
/// refused, and a failed check is passed on.
pub fn decide_login(account_id: i32, checked: APIResult<bool>) -> (decision: APIResult<SessionData>)
    ensures
        match checked {
            Ok(true) => decision matches Ok(data) && data == (SessionData {
                account_id: Some(account_id),
            }),
            Ok(false) => decision matches Err(refusal) && refusal.has(
                StatusCode::Unauthorized,
                "Invalid username or password."@,
            ),
            Err(failure) => decision matches Err(passed) && passed == failure,
        },
{
    match checked {
        Ok(true) => Ok(SessionData { account_id: Some(account_id) }),
        Ok(false) => Err(
            ErrorResponse::from(StatusCode::Unauthorized, "Invalid username or password."),
        ),
        Err(failure) => Err(failure),
    }
}

/// Accepts the account that a login names, given what the lookup of the
/// username found. A username that no account has is refused in the same
/// words as a wrong password.
pub fn known_account(found: Option<(i32, String)>) -> (account: APIResult<(i32, String)>)
    ensures
        match found {
            Some(credentials) => account matches Ok(accepted) && accepted == credentials,
            None => account matches Err(refusal) && refusal.has(
                StatusCode::Unauthorized,
                "Invalid username or password."@,
            ),
        },
{
    match found {
        Some(credentials) => Ok(credentials),
        None => Err(
            ErrorResponse::from(StatusCode::Unauthorized, "Invalid username or password."),
        ),
    }
}

/// Answers with the account of an identified caller, given what the lookup
/// of the identity found. An identity without an account is a failure of
/// the stored data.
pub fn present_user(found: Option<PublicUser>) -> (response: APIResponse<Option<PublicUser>>)
    ensures
        match found {
            Some(user) => response matches Ok(shown) && shown.success && shown.data == Some(user),
            None => response matches Err(failure) && failure.has(
                StatusCode::InternalServerError,
                "Invalid account."@,
            ),
        },
{
    match found {
        Some(user) => Ok(SuccessResponse { success: true, data: Some(user) }),
        None => Err(ErrorResponse::from(StatusCode::InternalServerError, "Invalid account.")),
    }
}

/// Logs the caller in: where the credentials are accepted, the account is
/// written to the caller's session, and the session is committed with a
/// full lifetime. Otherwise neither the session nor the table changes.
pub fn post_login(
    accounts: &AccountTable,
    sessions: &mut SessionStore,
    session: &mut Session,
    req: LoginRequest,
    now: i64,
) -> (response: APIResponse<()>)
    requires
        accounts.wf(),
        old(sessions).wf(),
        now + SESSION_LIFETIME <= i64::MAX,
    ensures
        final(sessions).wf(),
        match response {
            Ok(done) => {
                &&& done.success
                &&& login_accepted(accounts@.rows, req.username@, req.password@)
                &&& final(session)@.data.account_id matches Some(id) && id
                    == accounts@.rows[index_of_username(accounts@.rows, req.username@)].id
                &&& final(session)@.id is Some
                &&& old(session)@.id is Some ==> final(session)@.id == old(session)@.id
                &&& old(session)@.id is None ==> final(session)@.id->0.len() == 36
                &&& final(sessions)@ == committed(
                    old(sessions)@,
                    final(session)@.id->0,
                    final(session)@.data,
                    now as int,
                )
            },
            Err(failure) => {
                &&& !login_accepted(accounts@.rows, req.username@, req.password@)
                &&& final(sessions)@ == old(sessions)@
                &&& final(session)@ == old(session)@
                &&& if login_undecided(accounts@.rows, req.username@, req.password@) {
                    failure.has(StatusCode::InternalServerError, "Failed to verify password."@)
                } else {
                    failure.has(StatusCode::Unauthorized, "Invalid username or password."@)
                }
            },
        },
{
    let (account_id, hash) = known_account(accounts.credentials(&req.username))?;
    let checked = check_password(req.password.as_str(), hash.as_str());
    let data = decide_login(account_id, checked)?;
    let row = session.set(data, now);
    sessions.upsert(row);
    Ok(SuccessResponse { success: true, data: () })
}

/// Answers who the caller is: nothing for an anonymous caller, and the
/// public form of the account otherwise.
pub fn get_user(accounts: &AccountTable, account_id: Option<AccountId>) -> (response: APIResponse<
    Option<PublicUser>,
>)
    requires
        accounts.wf(),
    ensures
        match account_id {
            None => response matches Ok(anonymous) && anonymous.success && anonymous.data is None,
            Some(id) => if has_account(accounts@.rows, id.0 as int) {
                &&& response matches Ok(found)
                &&& found.success
                &&& found.data matches Some(user)
                &&& user.shows(accounts@.rows[index_of_account(accounts@.rows, id.0 as int)])
            } else {
                response matches Err(failure) && failure.has(
                    StatusCode::InternalServerError,
                    "Invalid account."@,
                )
            },
        },
{
    let id = match account_id {
        Some(id) => id,
        None => {
            return Ok(SuccessResponse { success: true, data: None });
        },
    };
    present_user(accounts.find(id.0))
}

/// Registers an account. The password is stored as a hash that matches it.
/// A username that is in use is refused before anything else is done. A
/// registration that the hashing or the table cannot serve fails too. None
/// of these changes the table.
pub fn post_users(accounts: &mut AccountTable, req: CreateUserRequest) -> (response: APIResponse<
    PublicUser,
>)
    requires
        old(accounts).wf(),
    ensures
        final(accounts).wf(),
        match response {
            Ok(created) => {
                &&& created.success
                &&& !has_username(old(accounts)@.rows, req.username@)
                &&& old(accounts)@.next_id < i32::MAX
                &&& final(accounts)@ == account_created(
                    old(accounts)@,
                    req.username@,
                    text_or(text_of(req.display_name), req.username@),
                    final(accounts)@.rows.last().password_hash_and_salt,
                )
                &&& bcrypt_verify(
                    req.password@,
                    final(accounts)@.rows.last().password_hash_and_salt,
                ) == Some(true)
                &&& created.data.shows(final(accounts)@.rows.last())
            },
            Err(failure) => {
                &&& final(accounts)@ == old(accounts)@
                &&& if has_username(old(accounts)@.rows, req.username@) {
                    failure.has(StatusCode::BadRequest, "Username is already used."@)
                } else {
                    ||| failure.has(StatusCode::InternalServerError, "Failed to hash password."@)
                    ||| old(accounts)@.next_id == i32::MAX && failure.has(
                        StatusCode::BadRequest,
                        "Failed to create user."@,
                    )
                }
            },
        },
{
    check_username_free(accounts.has_username(&req.username))?;
    let hash = hash_password(req.password.as_str())?;
    let user = accounts.register(req.username, req.display_name, hash)?;
    Ok(SuccessResponse { success: true, data: user })
}

/// Updates the caller's account: each field that is given is written, each
/// absent one is kept, and a password is stored as a hash that matches it.
pub fn post_user(
    accounts: &mut AccountTable,
    account_id: AccountId,
    req: UpdateUserRequest,
) -> (response: APIResponse<PublicUser>)
    requires
        old(accounts).wf(),
    ensures
        final(accounts).wf(),
        match response {
            Ok(updated) => {
                let at = index_of_account(old(accounts)@.rows, account_id.0 as int);
                &&& updated.success
                &&& can_rewrite_account(old(accounts)@, account_id.0 as int, text_of(req.username))
                &&& final(accounts)@ == account_updated(
                    old(accounts)@,
                    account_id.0 as int,
                    text_of(req.username),
                    text_of(req.display_name),
                    match req.password {
                        Some(_) => Some(final(accounts)@.rows[at].password_hash_and_salt),
                        None => None,
                    },
                )
                &&& req.password matches Some(password) ==> bcrypt_verify(
                    password@,
                    final(accounts)@.rows[at].password_hash_and_salt,
                ) == Some(true)
                &&& updated.data.shows(final(accounts)@.rows[at])
            },
            Err(failure) => {
                &&& final(accounts)@ == old(accounts)@
                &&& {
                    ||| req.password is Some && failure.has(
                        StatusCode::InternalServerError,
                        "Failed to hash password."@,
                    )
                    ||| !can_rewrite_account(
                        old(accounts)@,
                        account_id.0 as int,
                        text_of(req.username),
                    ) && failure.has(StatusCode::BadRequest, "Failed to update user."@)
                }
            },
        },
{
    let hash = match &req.password {
        Some(password) => Some(hash_password(password.as_str())?),
        None => None,
    };
    let user = accounts.update(account_id.0, req.username, req.display_name, hash)?;
    Ok(SuccessResponse { success: true, data: user })
}

} // verus!
