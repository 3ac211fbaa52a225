//! Todos, and the numbers they carry within a project.
//!
//! A todo that belongs to a project has a number that no other todo of that
//! project has. A number is handed out when a todo enters a project, as one
//! more than the highest number in use there, and is kept for as long as the
//! todo stays. Numbers of todos that left are not handed out again to close
//! a gap.

use crate::auth::AccountId;
use crate::projects::{owns_project, projects_valid, ProjectTable, ProjectView, ProjectsView};
use crate::response::{APIResponse, APIResult, ErrorResponse, StatusCode, SuccessResponse};
use vstd::prelude::*;

verus! {

/// A todo as its owner sees it. Times are microseconds since the Unix epoch.
#[derive(Debug)]
pub struct PublicTodo {
    pub id: i64,
    pub title: String,
    pub memo: String,
    pub completed_at: Option<i64>,
    pub deadline: Option<i64>,
    pub project_id: Option<i64>,
    pub project_todo_number: Option<i32>,
}

/// The body of a request that creates or updates a todo.
#[derive(Debug)]
pub struct CreateOrUpdateTodoRequest {
    pub title: String,
    pub memo: Option<String>,
    pub completed_at: Option<i64>,
    pub deadline: Option<i64>,
    pub project_id: Option<i64>,
}

/// One row of the todo table.
#[derive(Debug)]
pub struct TodoRow {
    pub id: i64,
    pub account_id: i32,
    pub title: String,
    pub memo: String,
    pub completed_at: Option<i64>,
    pub deadline: Option<i64>,
    pub project_id: Option<i64>,
    pub project_todo_number: Option<i32>,
}

/// A todo row as a mathematical value.
pub struct TodoView {
    pub id: int,
    pub account_id: i32,
    pub title: Seq<char>,
    pub memo: Seq<char>,
    pub completed_at: Option<i64>,
    pub deadline: Option<i64>,
    pub project_id: Option<i64>,
    pub project_todo_number: Option<int>,
}

/// What a request asks a todo to be: the request with a missing memo read
/// as the empty text.
pub struct TodoDraft {
    pub title: Seq<char>,
    pub memo: Seq<char>,
    pub completed_at: Option<i64>,
    pub deadline: Option<i64>,
    pub project_id: Option<i64>,
}

/// An optional number as an optional mathematical integer.
pub open spec fn number_of(number: Option<i32>) -> Option<int> {
    match number {
        Some(n) => Some(n as int),
        None => None,
    }
}

impl View for TodoRow {
    type V = TodoView;

    open spec fn view(&self) -> TodoView {
        TodoView {
            id: self.id as int,
            account_id: self.account_id,
            title: self.title@,
            memo: self.memo@,
            completed_at: self.completed_at,
            deadline: self.deadline,
            project_id: self.project_id,
            project_todo_number: number_of(self.project_todo_number),
        }
    }
}

impl View for CreateOrUpdateTodoRequest {
    type V = TodoDraft;

    open spec fn view(&self) -> TodoDraft {
        TodoDraft {
            title: self.title@,
            memo: match self.memo {
                Some(memo) => memo@,
                None => Seq::empty(),
            },
            completed_at: self.completed_at,
            deadline: self.deadline,
            project_id: self.project_id,
        }
    }
}

impl PublicTodo {
    /// Whether this is the public form of the given row.
    pub open spec fn shows(self, row: TodoView) -> bool {
        &&& self.id == row.id
        &&& self.title@ == row.title
        &&& self.memo@ == row.memo
        &&& self.completed_at == row.completed_at
        &&& self.deadline == row.deadline
        &&& self.project_id == row.project_id
        &&& number_of(self.project_todo_number) == row.project_todo_number
    }
}

/// The todo table as a mathematical value: its rows in the order of their
/// creation, and the identifier that the next row gets.
pub struct TodosView {
    pub rows: Seq<TodoView>,
    pub next_id: int,
}

/// Whether the row belongs to the project.
pub open spec fn in_project(row: TodoView, project_id: i64) -> bool {
    row.project_id == Some(project_id)
}

/// The highest number in use in a project, or 0 where the project has no
/// todo.
pub open spec fn max_project_todo_number(rows: Seq<TodoView>, project_id: i64) -> int
    decreases rows.len(),
{
    if rows.len() == 0 {
        0
    } else {
        let rest = max_project_todo_number(rows.drop_last(), project_id);
        match rows.last().project_todo_number {
            Some(n) => if in_project(rows.last(), project_id) && n > rest {
                n
            } else {
                rest
            },
            None => rest,
        }
    }
}

/// The number for a todo that enters a project: one more than the highest
/// in use there. A todo outside every project has none.
pub open spec fn next_project_todo_number(rows: Seq<TodoView>, project_id: Option<i64>) -> Option<
    int,
> {
    match project_id {
        Some(p) => Some(max_project_todo_number(rows, p) + 1),
        None => None,
    }
}

/// Whether the account owns a todo with this identifier.
pub open spec fn owns_todo(rows: Seq<TodoView>, account_id: i32, todo_id: int) -> bool {
    exists|i: int|
        0 <= i < rows.len() && (#[trigger] rows[i]).id == todo_id && rows[i].account_id
            == account_id
}

/// Whether some row has this identifier.
pub open spec fn has_todo(rows: Seq<TodoView>, todo_id: int) -> bool {
    exists|i: int| 0 <= i < rows.len() && (#[trigger] rows[i]).id == todo_id
}

/// The index of the row with this identifier.
pub open spec fn index_of_todo(rows: Seq<TodoView>, todo_id: int) -> int {
    choose|i: int| 0 <= i < rows.len() && (#[trigger] rows[i]).id == todo_id
}

/// The rows that belong to an account, in table order.
pub open spec fn todos_of(rows: Seq<TodoView>, account_id: i32) -> Seq<TodoView>
    decreases rows.len(),
{
    if rows.len() == 0 {
        Seq::empty()
    } else if rows.last().account_id == account_id {
        todos_of(rows.drop_last(), account_id).push(rows.last())
    } else {
        todos_of(rows.drop_last(), account_id)
    }
}

/// The table's invariant. Identifiers are positive, below the next one to be
/// handed out, and pairwise distinct. A todo has a number exactly if it has a
/// project; numbers are positive; and no two todos of one project share a
/// number.
pub open spec fn todos_valid(table: TodosView) -> bool {
    &&& 1 <= table.next_id
    &&& forall|i: int|
        0 <= i < table.rows.len() ==> 1 <= (#[trigger] table.rows[i]).id < table.next_id
    &&& forall|i: int, j: int|
        0 <= i < j < table.rows.len() ==> (#[trigger] table.rows[i]).id != (
        #[trigger] table.rows[j]).id
    &&& forall|i: int|
        0 <= i < table.rows.len() ==> ((#[trigger] table.rows[i]).project_id is None
            <==> table.rows[i].project_todo_number is None)
    &&& forall|i: int|
        0 <= i < table.rows.len() ==> ((#[trigger] table.rows[i]).project_todo_number matches Some(
            n,
        ) ==> n >= 1)
    &&& forall|i: int, j: int|
        0 <= i < j < table.rows.len() && (#[trigger] table.rows[i]).project_id is Some
            && table.rows[i].project_id == (#[trigger] table.rows[j]).project_id
            ==> table.rows[i].project_todo_number != table.rows[j].project_todo_number
}

/// The row that a draft becomes when the account creates it.
pub open spec fn new_todo(table: TodosView, account_id: i32, draft: TodoDraft) -> TodoView {
    TodoView {
        id: table.next_id,
        account_id,
        title: draft.title,
        memo: draft.memo,
        completed_at: draft.completed_at,
        deadline: draft.deadline,
        project_id: draft.project_id,
        project_todo_number: next_project_todo_number(table.rows, draft.project_id),
    }
}

/// The table after the account has created a todo from the draft.
pub open spec fn todo_created(table: TodosView, account_id: i32, draft: TodoDraft) -> TodosView {
    TodosView {
        rows: table.rows.push(new_todo(table, account_id, draft)),
        next_id: table.next_id + 1,
    }
}

/// The row that `current` becomes when it is rewritten from the draft, in a
/// table that holds `rows`. It keeps its number if it keeps its project;
/// otherwise it is numbered as a todo that enters the draft's project.
pub open spec fn rewritten_todo(
    rows: Seq<TodoView>,
    current: TodoView,
    draft: TodoDraft,
) -> TodoView {
    TodoView {
        id: current.id,
        account_id: current.account_id,
        title: draft.title,
        memo: draft.memo,
        completed_at: draft.completed_at,
        deadline: draft.deadline,
        project_id: draft.project_id,
        project_todo_number: if current.project_id == draft.project_id {
            current.project_todo_number
        } else {
            next_project_todo_number(rows, draft.project_id)
        },
    }
}

/// The table after the todo with this identifier has been rewritten from
/// the draft: that row changes in place, and no other does.
pub open spec fn todo_updated(table: TodosView, todo_id: int, draft: TodoDraft) -> TodosView {
    let at = index_of_todo(table.rows, todo_id);
    TodosView {
        rows: table.rows.update(at, rewritten_todo(table.rows, table.rows[at], draft)),
        next_id: table.next_id,
    }
}

/// Every number in use in a project is at most the project's highest, which
/// is never negative.
pub proof fn lemma_max_project_todo_number_bounds(rows: Seq<TodoView>, project_id: i64)
    ensures
        max_project_todo_number(rows, project_id) >= 0,
        forall|i: int|
            0 <= i < rows.len() && in_project(#[trigger] rows[i], project_id) ==> (
            rows[i].project_todo_number matches Some(n) ==> n <= max_project_todo_number(
                rows,
                project_id,
            )),
    decreases rows.len(),
{
    if rows.len() > 0 {
        let front = rows.drop_last();
        lemma_max_project_todo_number_bounds(front, project_id);
        assert forall|i: int|
            0 <= i < rows.len() && in_project(#[trigger] rows[i], project_id) implies (
        rows[i].project_todo_number matches Some(n) ==> n <= max_project_todo_number(
            rows,
            project_id,
        )) by {
            if i < front.len() {
                assert(front[i] == rows[i]);
            }
        }
    }
}

/// The highest number of a project is in use there, unless it is 0.
pub proof fn lemma_max_project_todo_number_is_used(rows: Seq<TodoView>, project_id: i64)
    ensures
        max_project_todo_number(rows, project_id) != 0 ==> exists|i: int|
            0 <= i < rows.len() && in_project(#[trigger] rows[i], project_id)
                && rows[i].project_todo_number == Some(max_project_todo_number(rows, project_id)),
    decreases rows.len(),
{
    if rows.len() > 0 {
        let front = rows.drop_last();
        lemma_max_project_todo_number_is_used(front, project_id);
        let m = max_project_todo_number(rows, project_id);
        if m != 0 {
            if m == max_project_todo_number(front, project_id) {
                let i = choose|i: int|
                    0 <= i < front.len() && in_project(#[trigger] front[i], project_id)
                        && front[i].project_todo_number == Some(m);
                assert(rows[i] == front[i]);
            } else {
                assert(in_project(rows[rows.len() - 1], project_id));
            }
        }
    }
}

/// The todo table, held in memory.
pub struct TodoTable {
    rows: Vec<TodoRow>,
    next_id: i64,
}

impl View for TodoTable {
    type V = TodosView;

    closed spec fn view(&self) -> TodosView {
        TodosView {
            rows: Seq::new(self.rows@.len(), |i: int| self.rows@[i]@),
            next_id: self.next_id as int,
        }
    }
}

impl TodoRow {
    /// The public form of the row.
    pub fn public(&self) -> (todo: PublicTodo)
        ensures
            todo.shows(self@),
    {
        PublicTodo {
            id: self.id,
            title: self.title.clone(),
            memo: self.memo.clone(),
            completed_at: self.completed_at,
            deadline: self.deadline,
            project_id: self.project_id,
            project_todo_number: self.project_todo_number,
        }
    }
}

/// The memo to store for a request: the one given, or the empty text.
pub fn memo_text(memo: Option<String>) -> (text: String)
    ensures
        text@ == (match memo {
            Some(given) => given@,
            None => Seq::empty(),
        }),
{
    match memo {
        Some(given) => given,
        None => String::new(),
    }
}

impl TodoTable {
    /// Whether the table meets its invariant.
    pub open spec fn wf(&self) -> bool {
        todos_valid(self@)
    }

    /// An empty table, whose first row will get the identifier 1.
    pub fn new() -> (table: Self)
        ensures
            table.wf(),
            table@ == (TodosView { rows: Seq::empty(), next_id: 1 }),
    {
        let table = TodoTable { rows: Vec::new(), next_id: 1 };
        assert(table@.rows =~= Seq::empty());
        table
    }

    /// Counts the rows with this identifier and owner: 1 or 0.
    pub fn count_owned(&self, todo_id: i64, account_id: i32) -> (count: i64)
        requires
            self.wf(),
        ensures
            count == (if owns_todo(self@.rows, account_id, todo_id as int) {
                1int
            } else {
                0int
            }),
    {
        match self.position(todo_id) {
            Some(i) => if self.rows[i].account_id == account_id {
                assert(self@.rows[i as int].id == todo_id);
                1
            } else {
                proof {
                    if owns_todo(self@.rows, account_id, todo_id as int) {
                        let k = choose|k: int|
                            0 <= k < self@.rows.len() && (#[trigger] self@.rows[k]).id == todo_id
                                && self@.rows[k].account_id == account_id;
                        if k < i {
                            assert(self@.rows[k].id != self@.rows[i as int].id);
                        } else {
                            assert(self@.rows[i as int].id != self@.rows[k].id);
                        }
                    }
                }
                0
            },
            None => 0,
        }
    }

    fn position(&self, todo_id: i64) -> (at: Option<usize>)
        ensures
            match at {
                Some(i) => i < self@.rows.len() && self@.rows[i as int].id == todo_id && forall|
                    j: int,
                |
                    0 <= j < i ==> (#[trigger] self@.rows[j]).id != todo_id,
                None => !has_todo(self@.rows, todo_id as int),
            },
    {
        let mut i: usize = 0;
        while i < self.rows.len()
            invariant
                i <= self.rows@.len(),
                forall|j: int| 0 <= j < i ==> (#[trigger] self@.rows[j]).id != todo_id,
            decreases self.rows@.len() - i,
        {
            if self.rows[i].id == todo_id {
                return Some(i);
            }
            i += 1;
        }
        None
    }

    /// The highest number in use in a project, or 0 where it has no todo.
    pub fn max_number(&self, project_id: i64) -> (max: i32)
        ensures
            max == max_project_todo_number(self@.rows, project_id),
    {
        let mut max: i32 = 0;
        let mut i: usize = 0;
        assert(self@.rows.take(0) =~= Seq::empty());
        while i < self.rows.len()
            invariant
                i <= self.rows@.len(),
                self@.rows.len() == self.rows@.len(),
                max == max_project_todo_number(self@.rows.take(i as int), project_id),
            decreases self.rows@.len() - i,
        {
            assert(self@.rows.take(i + 1).drop_last() =~= self@.rows.take(i as int));
            assert(self@.rows.take(i + 1).last() == self.rows@[i as int]@);
            match (self.rows[i].project_id, self.rows[i].project_todo_number) {
                (Some(p), Some(n)) => {
                    if p == project_id && n > max {
                        max = n;
                    }
                },
                _ => {},
            }
            i += 1;
        }
        assert(self@.rows.take(i as int) =~= self@.rows);
        max
    }

    /// The todos of an account, in table order.
    pub fn list(&self, account_id: i32) -> (todos: Vec<PublicTodo>)
        ensures
            todos@.len() == todos_of(self@.rows, account_id).len(),
            forall|k: int|
                0 <= k < todos@.len() ==> (#[trigger] todos@[k]).shows(
                    todos_of(self@.rows, account_id)[k],
                ),
    {
        let mut todos: Vec<PublicTodo> = Vec::new();
        let mut i: usize = 0;
        assert(self@.rows.take(0) =~= Seq::empty());
        while i < self.rows.len()
            invariant
                i <= self.rows@.len(),
                self@.rows.len() == self.rows@.len(),
                todos@.len() == todos_of(self@.rows.take(i as int), account_id).len(),
                forall|k: int|
                    0 <= k < todos@.len() ==> (#[trigger] todos@[k]).shows(
                        todos_of(self@.rows.take(i as int), account_id)[k],
                    ),
            decreases self.rows@.len() - i,
        {
            assert(self@.rows.take(i + 1).drop_last() =~= self@.rows.take(i as int));
            assert(self@.rows.take(i + 1).last() == self.rows@[i as int]@);
            if self.rows[i].account_id == account_id {
                todos.push(self.rows[i].public());
            }
            i += 1;
        }
        assert(self@.rows.take(i as int) =~= self@.rows);
        todos
    }
}


/// Whether the table can take one more todo for this project: an identifier
/// is left, and so is a number in the project.
pub open spec fn has_room(table: TodosView, project_id: Option<i64>) -> bool {
    &&& table.next_id < i64::MAX
    &&& project_id matches Some(p) ==> max_project_todo_number(table.rows, p) < i32::MAX
}

/// Whether the todo can be rewritten from the draft: it exists, and if it
/// changes into a project, a number is left there.
pub open spec fn can_rewrite(table: TodosView, todo_id: int, draft: TodoDraft) -> bool {
    &&& has_todo(table.rows, todo_id)
    &&& table.rows[index_of_todo(table.rows, todo_id)].project_id != draft.project_id
        ==> (draft.project_id matches Some(p) ==> max_project_todo_number(table.rows, p)
        < i32::MAX)
}

/// A valid table has one row at most for an identifier.
pub proof fn lemma_index_of_todo(rows: Seq<TodoView>, next_id: int, at: int)
    requires
        todos_valid(TodosView { rows, next_id }),
        0 <= at < rows.len(),
    ensures
        has_todo(rows, rows[at].id),
        index_of_todo(rows, rows[at].id) == at,
{
    let found = index_of_todo(rows, rows[at].id);
    assert(0 <= found < rows.len() && rows[found].id == rows[at].id);
    if found < at {
        assert(rows[found].id != rows[at].id);
    } else if at < found {
        assert(rows[at].id != rows[found].id);
    }
}

/// Creating a todo keeps the table valid: the new number is above every
/// number in its project.
pub proof fn lemma_creation_keeps_valid(table: TodosView, account_id: i32, draft: TodoDraft)
    requires
        todos_valid(table),
    ensures
        todos_valid(todo_created(table, account_id, draft)),
{
    let after = todo_created(table, account_id, draft);
    let last = table.rows.len() as int;
    assert forall|i: int| 0 <= i < last implies #[trigger] after.rows[i] == table.rows[i] by {}
    assert(after.rows[last] == new_todo(table, account_id, draft));
    if let Some(p) = draft.project_id {
        lemma_max_project_todo_number_bounds(table.rows, p);
    }
    assert forall|i: int, j: int|
        0 <= i < j < after.rows.len() && (#[trigger] after.rows[i]).project_id is Some
            && after.rows[i].project_id == (#[trigger] after.rows[j]).project_id implies
        after.rows[i].project_todo_number != after.rows[j].project_todo_number by {
        if j < last {
            assert(table.rows[i].project_todo_number != table.rows[j].project_todo_number);
        } else {
            assert(in_project(table.rows[i], draft.project_id->0));
        }
    }
    assert forall|i: int, j: int| 0 <= i < j < after.rows.len() implies (
    #[trigger] after.rows[i]).id != (#[trigger] after.rows[j]).id by {
        if j < last {
            assert(table.rows[i].id != table.rows[j].id);
        } else {
            assert(table.rows[i].id < table.next_id);
        }
    }
}

/// Rewriting a todo keeps the table valid, whether it stays in its project,
/// enters another or leaves every project.
pub proof fn lemma_rewrite_keeps_valid(table: TodosView, todo_id: int, draft: TodoDraft)
    requires
        todos_valid(table),
        has_todo(table.rows, todo_id),
    ensures
        todos_valid(todo_updated(table, todo_id, draft)),
{
    let after = todo_updated(table, todo_id, draft);
    let at = index_of_todo(table.rows, todo_id);
    assert forall|i: int| 0 <= i < table.rows.len() && i != at implies #[trigger] after.rows[i]
        == table.rows[i] by {}
    assert(after.rows[at] == rewritten_todo(table.rows, table.rows[at], draft));
    assert forall|i: int| 0 <= i < table.rows.len() implies (#[trigger] after.rows[i]).id
        == table.rows[i].id by {}
    if let Some(p) = draft.project_id {
        lemma_max_project_todo_number_bounds(table.rows, p);
    }
    assert forall|i: int, j: int| 0 <= i < j < after.rows.len() implies (
    #[trigger] after.rows[i]).id != (#[trigger] after.rows[j]).id by {
        assert(table.rows[i].id != table.rows[j].id);
    }
    assert forall|i: int|
        0 <= i < after.rows.len() implies ((#[trigger] after.rows[i]).project_id is None
        <==> after.rows[i].project_todo_number is None) by {
        assert(table.rows[i].project_id is None <==> table.rows[i].project_todo_number is None);
    }
    assert forall|i: int| 0 <= i < after.rows.len() implies (
    (#[trigger] after.rows[i]).project_todo_number matches Some(n) ==> n >= 1) by {
        assert(table.rows[i].project_todo_number matches Some(n) ==> n >= 1);
    }
    assert forall|i: int, j: int|
        0 <= i < j < after.rows.len() && (#[trigger] after.rows[i]).project_id is Some
            && after.rows[i].project_id == (#[trigger] after.rows[j]).project_id implies
        after.rows[i].project_todo_number != after.rows[j].project_todo_number by {
        if i != at && j != at {
            assert(table.rows[i].project_todo_number != table.rows[j].project_todo_number);
        } else if table.rows[at].project_id == draft.project_id {
            assert(table.rows[i].project_todo_number != table.rows[j].project_todo_number);
        } else if i == at {
            assert(in_project(table.rows[j], draft.project_id->0));
        } else {
            assert(in_project(table.rows[i], draft.project_id->0));
        }
    }
}

impl TodoTable {
    /// Adds a todo for the account, numbered within its project if it has
    /// one. Fails, and changes nothing, where the table has no room for it.
    pub fn create(&mut self, account_id: i32, req: CreateOrUpdateTodoRequest) -> (created:
        APIResult<PublicTodo>)
        requires
            old(self).wf(),
        ensures
            final(self).wf(),
            match created {
                Ok(todo) => {
                    &&& has_room(old(self)@, req.project_id)
                    &&& final(self)@ == todo_created(old(self)@, account_id, req@)
                    &&& todo.shows(final(self)@.rows.last())
                },
                Err(failure) => {
                    &&& !has_room(old(self)@, req.project_id)
                    &&& final(self)@ == old(self)@
                    &&& failure.has(StatusCode::InternalServerError, "Failed to create todo."@)
                },
            },
    {
        if self.next_id == i64::MAX {
            return Err(
                ErrorResponse::from(StatusCode::InternalServerError, "Failed to create todo."),
            );
        }
        let highest = match req.project_id {
            Some(project_id) => self.max_number(project_id),
            None => 0,
        };
        let number = number_for_entry(req.project_id, highest)?;
        let ghost draft = req@;
        let id = self.next_id;
        let row = TodoRow {
            id,
            account_id,
            title: req.title,
            memo: memo_text(req.memo),
            completed_at: req.completed_at,
            deadline: req.deadline,
            project_id: req.project_id,
            project_todo_number: number,
        };
        assert(row@ == new_todo(old(self)@, account_id, draft));
        let todo = row.public();
        self.rows.push(row);
        self.next_id = id + 1;
        proof {
            assert(self@.rows =~= todo_created(old(self)@, account_id, draft).rows);
            lemma_creation_keeps_valid(old(self)@, account_id, draft);
        }
        Ok(todo)
    }

    /// Rewrites the todo with this identifier from the request. It keeps its
    /// number if it keeps its project, and is numbered anew otherwise. Fails,
    /// and changes nothing, where the todo does not exist or no number is
    /// left in the project it enters.
    pub fn update(&mut self, todo_id: i64, req: CreateOrUpdateTodoRequest) -> (updated: APIResult<
        PublicTodo,
    >)
        requires
            old(self).wf(),
        ensures
            final(self).wf(),
            match updated {
                Ok(todo) => {
                    &&& can_rewrite(old(self)@, todo_id as int, req@)
                    &&& final(self)@ == todo_updated(old(self)@, todo_id as int, req@)
                    &&& todo.shows(
                        final(self)@.rows[index_of_todo(old(self)@.rows, todo_id as int)],
                    )
                },
                Err(failure) => {
                    &&& !can_rewrite(old(self)@, todo_id as int, req@)
                    &&& final(self)@ == old(self)@
                    &&& failure.has(StatusCode::InternalServerError, "Failed to create todo."@)
                },
            },
    {
        let at = match self.position(todo_id) {
            Some(at) => at,
            None => {
                return Err(
                    ErrorResponse::from(StatusCode::InternalServerError, "Failed to create todo."),
                );
            },
        };
        proof {
            lemma_index_of_todo(self@.rows, self@.next_id, at as int);
        }
        let highest = match req.project_id {
            Some(project_id) => self.max_number(project_id),
            None => 0,
        };
        let number = number_for_rewrite(
            self.rows[at].project_id,
            self.rows[at].project_todo_number,
            req.project_id,
            highest,
        )?;
        let ghost draft = req@;
        let row = TodoRow {
            id: self.rows[at].id,
            account_id: self.rows[at].account_id,
            title: req.title,
            memo: memo_text(req.memo),
            completed_at: req.completed_at,
            deadline: req.deadline,
            project_id: req.project_id,
            project_todo_number: number,
        };
        assert(row@ == rewritten_todo(old(self)@.rows, old(self)@.rows[at as int], draft));
        let todo = row.public();
        self.rows.set(at, row);
        proof {
            assert(self@.rows =~= todo_updated(old(self)@, todo_id as int, draft).rows);
            lemma_rewrite_keeps_valid(old(self)@, todo_id as int, draft);
        }
        Ok(todo)
    }
}

/// Whether the draft names no project, or one that the account owns.
pub open spec fn may_use_project(
    projects: Seq<ProjectView>,
    account_id: i32,
    project_id: Option<i64>,
) -> bool {
    project_id matches Some(p) ==> owns_project(projects, account_id as int, p as int)
}

/// Whether every todo that names a project names one that the project table
/// has created: its identifier lies below the next one to be handed out.
pub open spec fn projects_known(todos: TodosView, projects: ProjectsView) -> bool {
    forall|i: int|
        0 <= i < todos.rows.len() ==> ((#[trigger] todos.rows[i]).project_id matches Some(p) ==> 1
            <= p < projects.next_id)
}

/// A project that an account owns has been created by the project table.
pub proof fn lemma_owned_project_is_known(
    projects: ProjectsView,
    account_id: i32,
    project_id: i64,
)
    requires
        projects_valid(projects),
        owns_project(projects.rows, account_id as int, project_id as int),
    ensures
        1 <= project_id < projects.next_id,
{
    let at = choose|i: int|
        0 <= i < projects.rows.len() && (#[trigger] projects.rows[i]).id == project_id as int
            && projects.rows[i].account_id == account_id as int;
    assert(1 <= projects.rows[at].id < projects.next_id);
}

/// Creating a todo in a project that its creator may use keeps every todo's
/// project known.
pub proof fn lemma_creation_keeps_projects_known(
    todos: TodosView,
    projects: ProjectsView,
    account_id: i32,
    draft: TodoDraft,
)
    requires
        projects_valid(projects),
        projects_known(todos, projects),
        may_use_project(projects.rows, account_id, draft.project_id),
    ensures
        projects_known(todo_created(todos, account_id, draft), projects),
{
    let after = todo_created(todos, account_id, draft);
    if let Some(p) = draft.project_id {
        lemma_owned_project_is_known(projects, account_id, p);
    }
    assert forall|i: int| 0 <= i < after.rows.len() implies (
    (#[trigger] after.rows[i]).project_id matches Some(p) ==> 1 <= p < projects.next_id) by {
        if i < todos.rows.len() {
            assert(after.rows[i] == todos.rows[i]);
        }
    }
}

/// Rewriting a todo into a project that the caller may use keeps every
/// todo's project known.
pub proof fn lemma_rewrite_keeps_projects_known(
    todos: TodosView,
    projects: ProjectsView,
    account_id: i32,
    todo_id: int,
    draft: TodoDraft,
)
    requires
        projects_valid(projects),
        projects_known(todos, projects),
        may_use_project(projects.rows, account_id, draft.project_id),
        has_todo(todos.rows, todo_id),
    ensures
        projects_known(todo_updated(todos, todo_id, draft), projects),
{
    let after = todo_updated(todos, todo_id, draft);
    let at = index_of_todo(todos.rows, todo_id);
    if let Some(p) = draft.project_id {
        lemma_owned_project_is_known(projects, account_id, p);
    }
    assert forall|i: int| 0 <= i < after.rows.len() implies (
    (#[trigger] after.rows[i]).project_id matches Some(p) ==> 1 <= p < projects.next_id) by {
        if i != at {
            assert(after.rows[i] == todos.rows[i]);
        }
    }
}

/// Decides from the number of projects counted with the wanted identifier and
/// owner: none counted means that the project is not the caller's to use,
/// whether it exists or not.
pub fn validate_project_count(count: i64) -> (verdict: APIResult<()>)
    ensures
        match verdict {
            Ok(_) => count != 0,
            Err(refusal) => count == 0 && refusal.has(
                StatusCode::Unauthorized,
                "Project does not exist."@,
            ),
        },
{
    if count == 0 {
        return Err(ErrorResponse::from(StatusCode::Unauthorized, "Project does not exist."));
    }
    Ok(())
}

/// Decides from the number of todos counted with the wanted identifier and
/// owner: none counted means that there is no such todo for the caller.
pub fn validate_todo_count(count: i64) -> (verdict: APIResult<()>)
    ensures
        match verdict {
            Ok(_) => count > 0,
            Err(refusal) => count <= 0 && refusal.has(
                StatusCode::NotFound,
                "The todo does not exist."@,
            ),
        },
{
    if count > 0 {
        Ok(())
    } else {
        Err(ErrorResponse::from(StatusCode::NotFound, "The todo does not exist."))
    }
}

/// Accepts the project only if the account owns it.
pub fn validate_account_has_project(
    projects: &ProjectTable,
    account_id: i32,
    project_id: i64,
) -> (verdict: APIResult<()>)
    requires
        projects.wf(),
    ensures
        match verdict {
            Ok(_) => owns_project(projects@.rows, account_id as int, project_id as int),
            Err(refusal) => {
                &&& !owns_project(projects@.rows, account_id as int, project_id as int)
                &&& refusal.has(StatusCode::Unauthorized, "Project does not exist."@)
            },
        },
{
    validate_project_count(projects.count_owned(project_id, account_id))
}

/// Accepts the todo only if the account owns it.
pub fn validate_account_has_todo(todos: &TodoTable, account_id: i32, todo_id: i64) -> (verdict:
    APIResult<()>)
    requires
        todos.wf(),
    ensures
        match verdict {
            Ok(_) => owns_todo(todos@.rows, account_id, todo_id as int),
            Err(refusal) => {
                &&& !owns_todo(todos@.rows, account_id, todo_id as int)
                &&& refusal.has(StatusCode::NotFound, "The todo does not exist."@)
            },
        },
{
    validate_todo_count(todos.count_owned(todo_id, account_id))
}

/// The number for a todo that enters `project_id`, where `highest` is the
/// highest number in use in that project, or 0 if it has no todo. Fails
/// where the numbers of the project are used up.
pub fn number_for_entry(project_id: Option<i64>, highest: i32) -> (number: APIResult<Option<i32>>)
    ensures
        match number {
            Ok(n) => {
                &&& project_id is Some ==> highest < i32::MAX && n == Some((highest + 1) as i32)
                &&& project_id is None ==> n is None
            },
            Err(failure) => {
                &&& project_id is Some
                &&& highest == i32::MAX
                &&& failure.has(StatusCode::InternalServerError, "Failed to create todo."@)
            },
        },
{
    match project_id {
        Some(_) => {
            if highest == i32::MAX {
                return Err(
                    ErrorResponse::from(StatusCode::InternalServerError, "Failed to create todo."),
                );
            }
            Ok(Some(highest + 1))
        },
        None => Ok(None),
    }
}

/// The number of a todo after it is rewritten to belong to `project_id`: the
/// one it has if that is the project it is in, and otherwise the number of a
/// todo that enters `project_id`, whose highest number in use is `highest`.
pub fn number_for_rewrite(
    current_project_id: Option<i64>,
    current_number: Option<i32>,
    project_id: Option<i64>,
    highest: i32,
) -> (number: APIResult<Option<i32>>)
    ensures
        current_project_id == project_id ==> number == Ok::<Option<i32>, ErrorResponse>(
            current_number,
        ),
        current_project_id != project_id ==> match number {
            Ok(n) => {
                &&& project_id is Some ==> highest < i32::MAX && n == Some((highest + 1) as i32)
                &&& project_id is None ==> n is None
            },
            Err(failure) => {
                &&& project_id is Some
                &&& highest == i32::MAX
                &&& failure.has(StatusCode::InternalServerError, "Failed to create todo."@)
            },
        },
{
    let stays = match (current_project_id, project_id) {
        (Some(from), Some(to)) => from == to,
        (None, None) => true,
        _ => false,
    };
    if stays {
        Ok(current_number)
    } else {
        number_for_entry(project_id, highest)
    }
}

/// How a write of a numbered todo ended in storage.
#[derive(Clone, Copy, Debug, PartialEq, Eq, Structural)]
pub enum WriteOutcome {
    Written,
    /// Another todo took the number in the meantime.
    NumberTaken,
    Failed,
}

/// What to do after a write of a numbered todo.
#[derive(Clone, Copy, Debug, PartialEq, Eq, Structural)]
pub enum WriteStep {
    Done,
    /// Compute the number again and write once more.
    Retry,
    GiveUp,
}

/// Decides what follows a write of a numbered todo: a number that was taken
/// in the meantime is computed again once, and a second clash, like any
/// other failure, ends the operation.
pub fn after_write(outcome: WriteOutcome, retried: bool) -> (step: WriteStep)
    ensures
        step == (match outcome {
            WriteOutcome::Written => WriteStep::Done,
            WriteOutcome::NumberTaken => if retried {
                WriteStep::GiveUp
            } else {
                WriteStep::Retry
            },
            WriteOutcome::Failed => WriteStep::GiveUp,
        }),
{
    match outcome {
        WriteOutcome::Written => WriteStep::Done,
        WriteOutcome::NumberTaken => if retried {
            WriteStep::GiveUp
        } else {
            WriteStep::Retry
        },
        WriteOutcome::Failed => WriteStep::GiveUp,
    }
}

/// Lists the todos of the calling account, in the order of their creation.
pub fn get_todos(todos: &TodoTable, account_id: AccountId) -> (listed: Vec<PublicTodo>)
    ensures
        listed@.len() == todos_of(todos@.rows, account_id.0).len(),
        forall|k: int|
            0 <= k < listed@.len() ==> (#[trigger] listed@[k]).shows(
                todos_of(todos@.rows, account_id.0)[k],
            ),
{
    todos.list(account_id.0)
}

/// Creates a todo for the calling account. A project that is not the
/// caller's is refused as unauthorized, whether it exists or not.
pub fn post_todos(
    projects: &ProjectTable,
    todos: &mut TodoTable,
    account_id: AccountId,
    req: CreateOrUpdateTodoRequest,
) -> (response: APIResponse<PublicTodo>)
    requires
        projects.wf(),
        old(todos).wf(),
    ensures
        final(todos).wf(),
        projects_known(old(todos)@, projects@) ==> projects_known(final(todos)@, projects@),
        match response {
            Ok(created) => {
                &&& may_use_project(projects@.rows, account_id.0, req.project_id)
                &&& has_room(old(todos)@, req.project_id)
                &&& final(todos)@ == todo_created(old(todos)@, account_id.0, req@)
                &&& created.success
                &&& created.data.shows(final(todos)@.rows.last())
            },
            Err(failure) => {
                &&& final(todos)@ == old(todos)@
                &&& if !may_use_project(projects@.rows, account_id.0, req.project_id) {
                    failure.has(StatusCode::Unauthorized, "Project does not exist."@)
                } else {
                    &&& !has_room(old(todos)@, req.project_id)
                    &&& failure.has(StatusCode::InternalServerError, "Failed to create todo."@)
                }
            },
        },
{
    if let Some(project_id) = req.project_id {
        validate_account_has_project(projects, account_id.0, project_id)?;
    }
    let ghost draft = req@;
    let todo = todos.create(account_id.0, req)?;
    proof {
        if projects_known(old(todos)@, projects@) {
            lemma_creation_keeps_projects_known(old(todos)@, projects@, account_id.0, draft);
        }
    }
    Ok(SuccessResponse { success: true, data: todo })
}

/// Rewrites a todo of the calling account. The todo is looked at first: one
/// that is not the caller's is reported as not found, whatever else the
/// request asks. Then a project that is not the caller's is refused as
/// unauthorized.
pub fn post_todo(
    projects: &ProjectTable,
    todos: &mut TodoTable,
    account_id: AccountId,
    todo_id: i64,
    req: CreateOrUpdateTodoRequest,
) -> (response: APIResponse<PublicTodo>)
    requires
        projects.wf(),
        old(todos).wf(),
    ensures
        final(todos).wf(),
        projects_known(old(todos)@, projects@) ==> projects_known(final(todos)@, projects@),
        match response {
            Ok(updated) => {
                &&& owns_todo(old(todos)@.rows, account_id.0, todo_id as int)
                &&& may_use_project(projects@.rows, account_id.0, req.project_id)
                &&& can_rewrite(old(todos)@, todo_id as int, req@)
                &&& final(todos)@ == todo_updated(old(todos)@, todo_id as int, req@)
                &&& updated.success
                &&& updated.data.shows(
                    final(todos)@.rows[index_of_todo(old(todos)@.rows, todo_id as int)],
                )
            },
            Err(failure) => {
                &&& final(todos)@ == old(todos)@
                &&& if !owns_todo(old(todos)@.rows, account_id.0, todo_id as int) {
                    failure.has(StatusCode::NotFound, "The todo does not exist."@)
                } else if !may_use_project(projects@.rows, account_id.0, req.project_id) {
                    failure.has(StatusCode::Unauthorized, "Project does not exist."@)
                } else {
                    &&& !can_rewrite(old(todos)@, todo_id as int, req@)
                    &&& failure.has(StatusCode::InternalServerError, "Failed to create todo."@)
                }
            },
        },
{
    validate_account_has_todo(todos, account_id.0, todo_id)?;
    if let Some(project_id) = req.project_id {
        validate_account_has_project(projects, account_id.0, project_id)?;
    }
    let ghost draft = req@;
    let todo = todos.update(todo_id, req)?;
    proof {
        if projects_known(old(todos)@, projects@) {
            lemma_rewrite_keeps_projects_known(
                old(todos)@,
                projects@,
                account_id.0,
                todo_id as int,
                draft,
            );
        }
    }
    Ok(SuccessResponse { success: true, data: todo })
}

} // verus!
