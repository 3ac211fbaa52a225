//! The session table: at most one stored session per token.

use crate::session::{
    is_live, no_session, renewal, resolved, stored_of, text_of, Session, SessionContent,
    SessionData, SessionRow, SessionView, StoredSession, StoredSessionView, SESSION_LIFETIME,
    SESSION_REFRESH_THRESHOLD,
};
use vstd::prelude::*;

verus! {

/// The table after a commit of `data` under `token` at `now`: the row is
/// written or overwritten, with a full lifetime.
pub open spec fn committed(
    table: Map<Seq<char>, StoredSessionView>,
    token: Seq<char>,
    data: SessionData,
    now: int,
) -> Map<Seq<char>, StoredSessionView> {
    table.insert(
        token,
        StoredSessionView { content: SessionContent::Valid(data), expiry: now + SESSION_LIFETIME },
    )
}

/// What the table holds under the cookie of a request.
pub open spec fn found(
    table: Map<Seq<char>, StoredSessionView>,
    cookie: Option<Seq<char>>,
) -> Option<StoredSessionView> {
    match cookie {
        Some(id) => if table.dom().contains(id) {
            Some(table[id])
        } else {
            None
        },
        None => None,
    }
}

/// The session that a request with this cookie resolves to at `now`.
pub open spec fn resolution(
    table: Map<Seq<char>, StoredSessionView>,
    cookie: Option<Seq<char>>,
    now: int,
) -> SessionView {
    resolved(cookie, found(table, cookie), now)
}

/// The table after resolving a request with this cookie at `now`: the row of
/// the cookie has its expiry renewed if it is due, and nothing else changes.
pub open spec fn after_resolution(
    table: Map<Seq<char>, StoredSessionView>,
    cookie: Option<Seq<char>>,
    now: int,
) -> Map<Seq<char>, StoredSessionView> {
    match (cookie, renewal(cookie, found(table, cookie), now)) {
        (Some(id), Some(expiry)) => table.insert(
            id,
            StoredSessionView { content: table[id].content, expiry },
        ),
        _ => table,
    }
}

/// A commit without a token followed by a resolve of the returned token,
/// before the lifetime has run out, gives back that token and the committed
/// payload, whatever the table held before.
pub proof fn law_commit_then_resolve(
    table: Map<Seq<char>, StoredSessionView>,
    token: Seq<char>,
    data: SessionData,
    committed_at: int,
    resolved_at: int,
)
    requires
        committed_at <= resolved_at < committed_at + SESSION_LIFETIME,
    ensures
        resolution(committed(table, token, data, committed_at), Some(token), resolved_at) == (
        SessionView { id: Some(token), data }),
{
}

/// A session whose expiry has passed resolves exactly as a request without a
/// cookie does, to the anonymous session, and resolving it changes nothing.
pub proof fn law_expired_is_absent(
    table: Map<Seq<char>, StoredSessionView>,
    token: Seq<char>,
    now: int,
)
    requires
        table.dom().contains(token),
        table[token].expiry <= now,
    ensures
        resolution(table, Some(token), now) == resolution(table, None, now),
        resolution(table, Some(token), now) == no_session(),
        after_resolution(table, Some(token), now) == table,
        !is_live(found(table, Some(token)), now),
{
}

/// Resolving a live session with less than the refresh threshold left moves
/// its expiry to a full lifetime from the time of the resolve, and leaves its
/// content, the session resolved and every other row as they were.
pub proof fn law_sliding_renewal(
    table: Map<Seq<char>, StoredSessionView>,
    token: Seq<char>,
    now: int,
)
    requires
        table.dom().contains(token),
        now < table[token].expiry < now + SESSION_REFRESH_THRESHOLD,
    ensures
        after_resolution(table, Some(token), now).dom() == table.dom(),
        after_resolution(table, Some(token), now)[token].expiry == now + SESSION_LIFETIME,
        after_resolution(table, Some(token), now)[token].content == table[token].content,
        forall|other: Seq<char>|
            other != token && table.dom().contains(other) ==> after_resolution(
                table,
                Some(token),
                now,
            )[other] == #[trigger] table[other],
        resolution(after_resolution(table, Some(token), now), Some(token), now) == resolution(
            table,
            Some(token),
            now,
        ),
{
    assert(after_resolution(table, Some(token), now).dom() =~= table.dom());
}

/// A live session with at least the refresh threshold left is not touched by
/// a resolve.
pub proof fn law_fresh_session_is_not_renewed(
    table: Map<Seq<char>, StoredSessionView>,
    token: Seq<char>,
    now: int,
)
    requires
        table.dom().contains(token),
        table[token].expiry >= now + SESSION_REFRESH_THRESHOLD,
    ensures
        after_resolution(table, Some(token), now) == table,
{
}

/// The session table, held in memory.
pub struct SessionStore {
    rows: Vec<SessionRow>,
}

/// Whether some row carries the token.
pub open spec fn has_token(rows: Seq<SessionRow>, token: Seq<char>) -> bool {
    exists|i: int| 0 <= i < rows.len() && (#[trigger] rows[i]).key() == token
}

/// The index of a row that carries the token.
pub open spec fn index_of_token(rows: Seq<SessionRow>, token: Seq<char>) -> int {
    choose|i: int| 0 <= i < rows.len() && (#[trigger] rows[i]).key() == token
}

/// No two rows carry the same token.
pub open spec fn tokens_distinct(rows: Seq<SessionRow>) -> bool {
    forall|i: int, j: int|
        0 <= i < j < rows.len() ==> (#[trigger] rows[i]).key() != (#[trigger] rows[j]).key()
}

/// The table that a sequence of rows stands for.
pub open spec fn table_of(rows: Seq<SessionRow>) -> Map<Seq<char>, StoredSessionView> {
    Map::new(
        |token: Seq<char>| has_token(rows, token),
        |token: Seq<char>| rows[index_of_token(rows, token)].stored(),
    )
}

proof fn lemma_row_in_table(rows: Seq<SessionRow>, i: int)
    requires
        tokens_distinct(rows),
        0 <= i < rows.len(),
    ensures
        table_of(rows).dom().contains(rows[i].key()),
        table_of(rows)[rows[i].key()] == rows[i].stored(),
        index_of_token(rows, rows[i].key()) == i,
{
    let token = rows[i].key();
    assert(has_token(rows, token));
    let j = index_of_token(rows, token);
    assert(0 <= j < rows.len() && rows[j].key() == token);
    if j < i {
        assert(rows[j].key() != rows[i].key());
    } else if i < j {
        assert(rows[i].key() != rows[j].key());
    }
}

proof fn lemma_table_after_push(rows: Seq<SessionRow>, row: SessionRow)
    requires
        tokens_distinct(rows),
        !has_token(rows, row.key()),
    ensures
        tokens_distinct(rows.push(row)),
        table_of(rows.push(row)) == table_of(rows).insert(row.key(), row.stored()),
{
    let after = rows.push(row);
    assert forall|i: int, j: int| 0 <= i < j < after.len() implies (
    #[trigger] after[i]).key() != (#[trigger] after[j]).key() by {
        if j == rows.len() {
            assert(after[i] == rows[i]);
            if rows[i].key() == row.key() {
                assert(has_token(rows, row.key()));
            }
        } else {
            assert(after[i] == rows[i] && after[j] == rows[j]);
        }
    }
    let expected = table_of(rows).insert(row.key(), row.stored());
    assert forall|token: Seq<char>|
        table_of(after).dom().contains(token) == expected.dom().contains(token) by {
        if has_token(rows, token) {
            let i = index_of_token(rows, token);
            assert(after[i] == rows[i]);
            assert(has_token(after, token));
        }
        if token == row.key() {
            assert(after[rows.len() as int] == row);
            assert(has_token(after, token));
        }
        if has_token(after, token) {
            let i = index_of_token(after, token);
            if i < rows.len() {
                assert(after[i] == rows[i]);
                assert(has_token(rows, token));
            }
        }
    }
    assert forall|token: Seq<char>| expected.dom().contains(token) implies table_of(after)[token]
        == expected[token] by {
        if token == row.key() {
            assert(after[rows.len() as int] == row);
            lemma_row_in_table(after, rows.len() as int);
        } else {
            let i = index_of_token(rows, token);
            assert(after[i] == rows[i]);
            lemma_row_in_table(after, i);
            lemma_row_in_table(rows, i);
        }
    }
    assert(table_of(after) =~= expected);
}

proof fn lemma_table_after_update(rows: Seq<SessionRow>, at: int, row: SessionRow)
    requires
        tokens_distinct(rows),
        0 <= at < rows.len(),
        rows[at].key() == row.key(),
    ensures
        tokens_distinct(rows.update(at, row)),
        table_of(rows.update(at, row)) == table_of(rows).insert(row.key(), row.stored()),
{
    let after = rows.update(at, row);
    assert forall|i: int| 0 <= i < rows.len() implies (#[trigger] after[i]).key()
        == rows[i].key() by {}
    assert forall|i: int, j: int| 0 <= i < j < after.len() implies (
    #[trigger] after[i]).key() != (#[trigger] after[j]).key() by {
        assert(rows[i].key() != rows[j].key());
    }
    let expected = table_of(rows).insert(row.key(), row.stored());
    lemma_row_in_table(rows, at);
    assert forall|token: Seq<char>|
        table_of(after).dom().contains(token) == expected.dom().contains(token) by {
        if has_token(rows, token) {
            let i = index_of_token(rows, token);
            assert(after[i].key() == rows[i].key());
            assert(has_token(after, token));
        }
        if has_token(after, token) {
            let i = index_of_token(after, token);
            assert(after[i].key() == rows[i].key());
            assert(has_token(rows, token));
        }
    }
    assert forall|token: Seq<char>| expected.dom().contains(token) implies table_of(after)[token]
        == expected[token] by {
        let i = index_of_token(rows, token);
        assert(0 <= i < rows.len() && rows[i].key() == token);
        assert(after[i].key() == token);
        lemma_row_in_table(after, i);
        lemma_row_in_table(rows, i);
        if i != at {
            assert(after[i] == rows[i]);
        }
    }
    assert(table_of(after) =~= expected);
}

impl View for SessionStore {
    type V = Map<Seq<char>, StoredSessionView>;

    closed spec fn view(&self) -> Map<Seq<char>, StoredSessionView> {
        table_of(self.rows@)
    }
}

impl SessionStore {
    /// The table's invariant: a token is a primary key.
    pub closed spec fn wf(&self) -> bool {
        tokens_distinct(self.rows@)
    }

    /// An empty table.
    pub fn new() -> (store: Self)
        ensures
            store.wf(),
            store@ == Map::<Seq<char>, StoredSessionView>::empty(),
    {
        let store = SessionStore { rows: Vec::new() };
        assert(store@ =~= Map::<Seq<char>, StoredSessionView>::empty());
        store
    }

    /// The number of rows.
    pub fn len(&self) -> (n: usize)
        requires
            self.wf(),
        ensures
            n == self@.dom().len(),
            self@.dom().finite(),
    {
        proof {
            lemma_table_size(self.rows@);
        }
        self.rows.len()
    }

    fn position(&self, token: &String) -> (at: Option<usize>)
        requires
            self.wf(),
        ensures
            match at {
                Some(i) => i < self.rows@.len() && self.rows@[i as int].key() == token@,
                None => !has_token(self.rows@, token@),
            },
    {
        let mut i: usize = 0;
        while i < self.rows.len()
            invariant
                i <= self.rows@.len(),
                forall|j: int| 0 <= j < i ==> (#[trigger] self.rows@[j]).key() != token@,
            decreases self.rows@.len() - i,
        {
            if self.rows[i].id == *token {
                return Some(i);
            }
            i += 1;
        }
        None
    }

    /// What the table holds under a token.
    pub fn lookup(&self, token: &String) -> (stored: Option<StoredSession>)
        requires
            self.wf(),
        ensures
            stored_of(stored) == found(self@, Some(token@)),
    {
        match self.position(token) {
            Some(i) => {
                proof {
                    lemma_row_in_table(self.rows@, i as int);
                }
                Some(StoredSession { content: self.rows[i].content, expiry: self.rows[i].expiry })
            },
            None => None,
        }
    }

    /// Writes a row, replacing the one with the same token if there is one.
    pub fn upsert(&mut self, row: SessionRow)
        requires
            old(self).wf(),
        ensures
            final(self).wf(),
            final(self)@ == old(self)@.insert(row.key(), row.stored()),
    {
        match self.position(&row.id) {
            Some(i) => {
                proof {
                    lemma_table_after_update(self.rows@, i as int, row);
                }
                self.rows.set(i, row);
            },
            None => {
                proof {
                    lemma_table_after_push(self.rows@, row);
                }
                self.rows.push(row);
            },
        }
    }

    /// Resolves the session of a request that presents `cookie`, and renews
    /// the stored expiry where it is due.
    pub fn resolve(&mut self, cookie: Option<String>, now: i64) -> (session: Session)
        requires
            old(self).wf(),
            now + SESSION_LIFETIME <= i64::MAX,
        ensures
            final(self).wf(),
            session@ == resolution(old(self)@, text_of(cookie), now as int),
            final(self)@ == after_resolution(old(self)@, text_of(cookie), now as int),
    {
        let at = match &cookie {
            Some(id) => self.position(id),
            None => None,
        };
        let stored = match at {
            Some(i) => {
                proof {
                    lemma_row_in_table(self.rows@, i as int);
                }
                Some(StoredSession { content: self.rows[i].content, expiry: self.rows[i].expiry })
            },
            None => None,
        };
        let ghost cookie_text = text_of(cookie);
        assert(stored_of(stored) == found(self@, cookie_text));
        let (session, renewed) = Session::resolve(cookie, stored, now);
        match (at, renewed) {
            (Some(i), Some(expiry)) => {
                let row = SessionRow {
                    id: self.rows[i].id.clone(),
                    content: self.rows[i].content,
                    expiry,
                };
                proof {
                    lemma_table_after_update(self.rows@, i as int, row);
                }
                self.rows.set(i, row);
            },
            _ => {},
        }
        session
    }

    /// Stores `data` under the given token, or under a fresh one where none
    /// is given, with a full lifetime from `now`. Returns the token to hand
    /// to the caller as the session cookie.
    pub fn commit(&mut self, existing_id: Option<String>, data: SessionData, now: i64) -> (token:
        String)
        requires
            old(self).wf(),
            now + SESSION_LIFETIME <= i64::MAX,
        ensures
            final(self).wf(),
            existing_id matches Some(id) ==> token@ == id@,
            existing_id is None ==> token@.len() == 36,
            final(self)@ == committed(old(self)@, token@, data, now as int),
    {
        let mut session = Session::with_token(existing_id);
        let row = session.set(data, now);
        let token = row.id.clone();
        self.upsert(row);
        token
    }
}

proof fn lemma_table_size(rows: Seq<SessionRow>)
    requires
        tokens_distinct(rows),
    ensures
        table_of(rows).dom().finite(),
        table_of(rows).dom().len() == rows.len(),
    decreases rows.len(),
{
    if rows.len() == 0 {
        assert(table_of(rows).dom() =~= Set::<Seq<char>>::empty());
    } else {
        let front = rows.drop_last();
        let last = rows.last();
        assert(rows == front.push(last));
        assert forall|i: int, j: int| 0 <= i < j < front.len() implies (
        #[trigger] front[i]).key() != (#[trigger] front[j]).key() by {
            assert(front[i] == rows[i] && front[j] == rows[j]);
        }
        if has_token(front, last.key()) {
            let i = index_of_token(front, last.key());
            assert(front[i] == rows[i]);
            assert(rows[i].key() != rows[rows.len() - 1].key());
        }
        lemma_table_size(front);
        lemma_table_after_push(front, last);
        assert(table_of(rows).dom() =~= table_of(front).dom().insert(last.key()));
        assert(!table_of(front).dom().contains(last.key()));
    }
}

} // verus!
