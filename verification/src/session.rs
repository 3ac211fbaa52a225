//! Sessions: an opaque token carried in a cookie, mapped to a small payload
//! that expires a day after it was last written or renewed.
//!
//! Time is counted in microseconds since the Unix epoch. The caller supplies
//! the current time with every operation.

use crate::response::ErrorKind;
use vstd::prelude::*;

verus! {

/// How long a session lives after a commit or a renewal: one day.
pub const SESSION_LIFETIME: i64 = 86_400_000_000;

/// A live session with less than this left is renewed when resolved: twelve hours.
pub const SESSION_REFRESH_THRESHOLD: i64 = 43_200_000_000;

/// The cookie name used when none is configured.
pub open spec fn default_session_cookie_key() -> Seq<char> {
    "EVE_SESSION_ID"@
}

/// The name of the session cookie: the configured one, or the default.
pub fn get_session_cookie_key(configured: Option<String>) -> (key: String)
    ensures
        key@ == (match configured {
            Some(name) => name@,
            None => default_session_cookie_key(),
        }),
{
    match configured {
        Some(name) => name,
        None => "EVE_SESSION_ID".to_owned(),
    }
}

/// What a session remembers about its holder.
#[derive(Clone, Copy, Debug)]
pub struct SessionData {
    pub account_id: Option<i32>,
}

impl SessionData {
    /// The payload of a caller who has not logged in.
    pub open spec fn anonymous() -> SessionData {
        SessionData { account_id: None }
    }
}

impl Default for SessionData {
    fn default() -> (data: Self)
        ensures
            data == SessionData::anonymous(),
    {
        SessionData { account_id: None }
    }
}

/// The stored content of a session after decoding.
#[derive(Clone, Copy, Debug)]
pub enum SessionContent {
    Valid(SessionData),
    /// The stored text could not be decoded.
    Corrupt,
}

/// What the session table holds under one token.
#[derive(Clone, Copy, Debug)]
pub struct StoredSession {
    pub content: SessionContent,
    pub expiry: i64,
}

/// A stored session with its expiry as a mathematical integer.
pub struct StoredSessionView {
    pub content: SessionContent,
    pub expiry: int,
}

impl View for StoredSession {
    type V = StoredSessionView;

    open spec fn view(&self) -> StoredSessionView {
        StoredSessionView { content: self.content, expiry: self.expiry as int }
    }
}

/// One row of the session table.
#[derive(Debug)]
pub struct SessionRow {
    pub id: String,
    pub content: SessionContent,
    pub expiry: i64,
}

impl SessionRow {
    /// The token of the row.
    pub open spec fn key(self) -> Seq<char> {
        self.id@
    }

    /// What the row stores under its token.
    pub open spec fn stored(self) -> StoredSessionView {
        StoredSessionView { content: self.content, expiry: self.expiry as int }
    }
}

/// The view of a session: its token, if it has one, and its payload.
pub struct SessionView {
    pub id: Option<Seq<char>>,
    pub data: SessionData,
}

/// The session of one request.
pub struct Session {
    id: Option<String>,
    data: SessionData,
}

/// The view of an optional string.
pub open spec fn text_of(text: Option<String>) -> Option<Seq<char>> {
    match text {
        Some(t) => Some(t@),
        None => None,
    }
}

/// The view of an optional stored session.
pub open spec fn stored_of(stored: Option<StoredSession>) -> Option<StoredSessionView> {
    match stored {
        Some(s) => Some(s@),
        None => None,
    }
}

/// The session of a caller without a usable cookie.
pub open spec fn no_session() -> SessionView {
    SessionView { id: None, data: SessionData::anonymous() }
}

/// Whether a stored session exists and has not expired at `now`.
pub open spec fn is_live(stored: Option<StoredSessionView>, now: int) -> bool {
    stored matches Some(s) && s.expiry > now
}

/// What looking up the cookie of a request gives.
#[derive(Clone, Copy, Debug)]
pub enum SessionLookup {
    /// A live session with readable content.
    Valid(SessionData),
    /// No cookie, no row under it, or a row that has expired.
    Absent,
    /// A live session whose stored content cannot be decoded.
    Corrupt,
}

impl SessionLookup {
    /// The failure behind the lookup, if any. Resolving does not pass it on:
    /// it answers with the anonymous session.
    pub fn failure(&self) -> (kind: Option<ErrorKind>)
        ensures
            kind == (match *self {
                SessionLookup::Corrupt => Some(ErrorKind::SerializationError),
                _ => None,
            }),
    {
        match self {
            SessionLookup::Corrupt => Some(ErrorKind::SerializationError),
            _ => None,
        }
    }
}

/// What the cookie of a request leads to, given what the table holds under
/// it. A row counts only while its expiry lies after `now`.
pub open spec fn looked_up(
    cookie: Option<Seq<char>>,
    stored: Option<StoredSessionView>,
    now: int,
) -> SessionLookup {
    match (cookie, stored) {
        (Some(_), Some(s)) => if s.expiry > now {
            match s.content {
                SessionContent::Valid(data) => SessionLookup::Valid(data),
                SessionContent::Corrupt => SessionLookup::Corrupt,
            }
        } else {
            SessionLookup::Absent
        },
        _ => SessionLookup::Absent,
    }
}

/// The session that a request resolves to, given the cookie it presents and
/// what the table holds under that cookie. A missing cookie, a missing or
/// expired row and undecodable content all give the anonymous session.
pub open spec fn resolved(
    cookie: Option<Seq<char>>,
    stored: Option<StoredSessionView>,
    now: int,
) -> SessionView {
    match looked_up(cookie, stored, now) {
        SessionLookup::Valid(data) => SessionView { id: cookie, data },
        SessionLookup::Absent => no_session(),
        SessionLookup::Corrupt => no_session(),
    }
}

/// The expiry that resolving writes back: a live session with less than the
/// refresh threshold left gets a full lifetime from `now`; otherwise nothing
/// is written.
pub open spec fn renewal(
    cookie: Option<Seq<char>>,
    stored: Option<StoredSessionView>,
    now: int,
) -> Option<int> {
    match (cookie, stored) {
        (Some(_), Some(s)) => if now < s.expiry < now + SESSION_REFRESH_THRESHOLD {
            Some(now + SESSION_LIFETIME)
        } else {
            None
        },
        _ => None,
    }
}

/// Calls `uuid::Uuid::new_v4` and renders the identifier with `to_string`.
/// The identifier is random; all that is claimed is its hyphenated form of
/// 36 characters.
#[verifier::external_body]
fn fresh_token() -> (token: String)
    ensures
        token@.len() == 36,
{
    uuid::Uuid::new_v4().to_string()
}

impl View for Session {
    type V = SessionView;

    closed spec fn view(&self) -> SessionView {
        SessionView { id: text_of(self.id), data: self.data }
    }
}

impl Session {
    /// The session of a caller without a usable cookie.
    pub fn anonymous() -> (session: Self)
        ensures
            session@ == no_session(),
    {
        Session { id: None, data: SessionData { account_id: None } }
    }

    /// A session that carries the given token, or none, and no payload yet.
    pub fn with_token(id: Option<String>) -> (session: Self)
        ensures
            session@ == (SessionView { id: text_of(id), data: SessionData::anonymous() }),
    {
        Session { id, data: SessionData { account_id: None } }
    }

    /// The payload of the session.
    pub fn get(&self) -> (data: &SessionData)
        ensures
            *data == self@.data,
    {
        &self.data
    }

    /// The token of this session, if it has one.
    pub fn id(&self) -> (id: Option<String>)
        ensures
            text_of(id) == self@.id,
    {
        self.id.clone()
    }

    /// Looks at what the table holds under the cookie of a request.
    pub fn look_up(cookie: &Option<String>, stored: Option<StoredSession>, now: i64) -> (lookup:
        SessionLookup)
        ensures
            lookup == looked_up(text_of(*cookie), stored_of(stored), now as int),
    {
        match (cookie, stored) {
            (Some(_), Some(found)) => {
                if found.expiry > now {
                    match found.content {
                        SessionContent::Valid(data) => SessionLookup::Valid(data),
                        SessionContent::Corrupt => SessionLookup::Corrupt,
                    }
                } else {
                    SessionLookup::Absent
                }
            },
            _ => SessionLookup::Absent,
        }
    }

    /// Resolves the session of a request from the cookie it presents and the
    /// row found under that cookie. Content that cannot be decoded is
    /// treated as no session. The second component is the new expiry to
    /// write to that row, if it is due for renewal.
    pub fn resolve(cookie: Option<String>, stored: Option<StoredSession>, now: i64) -> (outcome: (
        Self,
        Option<i64>,
    ))
        requires
            now + SESSION_LIFETIME <= i64::MAX,
        ensures
            outcome.0@ == resolved(text_of(cookie), stored_of(stored), now as int),
            match outcome.1 {
                Some(expiry) => renewal(text_of(cookie), stored_of(stored), now as int) == Some(
                    expiry as int,
                ),
                None => renewal(text_of(cookie), stored_of(stored), now as int) is None,
            },
    {
        let renewed = match (&cookie, stored) {
            (Some(_), Some(found)) => {
                if found.expiry > now && found.expiry < now + SESSION_REFRESH_THRESHOLD {
                    Some(now + SESSION_LIFETIME)
                } else {
                    None
                }
            },
            _ => None,
        };
        let session = match Session::look_up(&cookie, stored, now) {
            SessionLookup::Valid(data) => Session { id: cookie, data },
            SessionLookup::Absent => Session::anonymous(),
            SessionLookup::Corrupt => Session::anonymous(),
        };
        (session, renewed)
    }

    /// Writes `data` to the session and returns the row to store for it. A
    /// session without a token gets a fresh one; a token once assigned is kept.
    pub fn set(&mut self, data: SessionData, now: i64) -> (row: SessionRow)
        requires
            now + SESSION_LIFETIME <= i64::MAX,
        ensures
            final(self)@ == (SessionView { id: Some(row.id@), data }),
            old(self)@.id matches Some(id) ==> row.id@ == id,
            old(self)@.id is None ==> row.id@.len() == 36,
            row.content == SessionContent::Valid(data),
            row.expiry == now + SESSION_LIFETIME,
    {
        let id = match &self.id {
            Some(id) => id.clone(),
            None => fresh_token(),
        };
        self.id = Some(id.clone());
        self.data = data;
        SessionRow { id, content: SessionContent::Valid(data), expiry: now + SESSION_LIFETIME }
    }
}

} // verus!
