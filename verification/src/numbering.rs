//! What holds of the numbers of todos across operations on the todo table.

use crate::projects::{project_created, ProjectsView};
use crate::todos::{
    has_todo, in_project, index_of_todo, lemma_creation_keeps_valid,
    lemma_max_project_todo_number_bounds, lemma_max_project_todo_number_is_used,
    max_project_todo_number, new_todo, next_project_todo_number, projects_known, todo_created,
    todo_updated, todos_valid, TodoDraft, TodoView, TodosView,
};
use vstd::prelude::*;

verus! {

/// One creation: who creates, and what.
pub struct Creation {
    pub account_id: i32,
    pub draft: TodoDraft,
}

/// The table after a run of creations, applied one after the other.
pub open spec fn after_creations(table: TodosView, creations: Seq<Creation>) -> TodosView
    decreases creations.len(),
{
    if creations.len() == 0 {
        table
    } else {
        todo_created(
            after_creations(table, creations.drop_last()),
            creations.last().account_id,
            creations.last().draft,
        )
    }
}

/// How many of the creations are for the project.
pub open spec fn creations_in(creations: Seq<Creation>, project_id: i64) -> nat
    decreases creations.len(),
{
    if creations.len() == 0 {
        0
    } else if creations.last().draft.project_id == Some(project_id) {
        creations_in(creations.drop_last(), project_id) + 1
    } else {
        creations_in(creations.drop_last(), project_id)
    }
}

/// A value is the highest number of a project if no number in use there is
/// above it and it is in use there, or is 0.
pub proof fn lemma_highest_number(rows: Seq<TodoView>, project_id: i64, highest: int)
    requires
        highest >= 0,
        forall|i: int|
            0 <= i < rows.len() && in_project(#[trigger] rows[i], project_id) ==> (
            rows[i].project_todo_number matches Some(n) ==> n <= highest),
        highest != 0 ==> exists|i: int|
            0 <= i < rows.len() && in_project(#[trigger] rows[i], project_id)
                && rows[i].project_todo_number == Some(highest),
    ensures
        max_project_todo_number(rows, project_id) == highest,
{
    lemma_max_project_todo_number_bounds(rows, project_id);
    lemma_max_project_todo_number_is_used(rows, project_id);
    let max = max_project_todo_number(rows, project_id);
    if max != 0 {
        let i = choose|i: int|
            0 <= i < rows.len() && in_project(#[trigger] rows[i], project_id)
                && rows[i].project_todo_number == Some(max);
        assert(max <= highest);
    }
    if highest != 0 {
        let i = choose|i: int|
            0 <= i < rows.len() && in_project(#[trigger] rows[i], project_id)
                && rows[i].project_todo_number == Some(highest);
        assert(highest <= max);
    }
}

/// A creation raises the highest number of its project by one and leaves
/// that of every other project as it was.
pub proof fn lemma_highest_after_creation(
    table: TodosView,
    account_id: i32,
    draft: TodoDraft,
    project_id: i64,
)
    ensures
        max_project_todo_number(todo_created(table, account_id, draft).rows, project_id) == (
        if draft.project_id == Some(project_id) {
            max_project_todo_number(table.rows, project_id) + 1
        } else {
            max_project_todo_number(table.rows, project_id)
        }),
{
    let after = todo_created(table, account_id, draft).rows;
    assert(after.drop_last() =~= table.rows);
    assert(after.last() == new_todo(table, account_id, draft));
    lemma_max_project_todo_number_bounds(table.rows, project_id);
}

/// A run of creations appends one row for each, in order, and keeps the
/// table valid. The row of a creation for a project carries the highest
/// number that the project had before the run, plus the count of creations
/// for that project up to and including this one.
pub proof fn law_creations_are_numbered_in_order(
    table: TodosView,
    creations: Seq<Creation>,
    project_id: i64,
)
    requires
        todos_valid(table),
    ensures
        todos_valid(after_creations(table, creations)),
        after_creations(table, creations).rows.len() == table.rows.len() + creations.len(),
        after_creations(table, creations).next_id == table.next_id + creations.len(),
        forall|i: int|
            0 <= i < table.rows.len() ==> #[trigger] after_creations(table, creations).rows[i]
                == table.rows[i],
        max_project_todo_number(after_creations(table, creations).rows, project_id)
            == max_project_todo_number(table.rows, project_id) + creations_in(
            creations,
            project_id,
        ),
        forall|k: int|
            0 <= k < creations.len() && (#[trigger] creations[k]).draft.project_id == Some(
                project_id,
            ) ==> after_creations(table, creations).rows[table.rows.len() + k].project_todo_number
                == Some(
                max_project_todo_number(table.rows, project_id) + creations_in(
                    creations.take(k),
                    project_id,
                ) + 1,
            ),
    decreases creations.len(),
{
    if creations.len() > 0 {
        let front = creations.drop_last();
        let last = creations.last();
        let before = after_creations(table, front);
        let after = after_creations(table, creations);
        law_creations_are_numbered_in_order(table, front, project_id);
        lemma_creation_keeps_valid(before, last.account_id, last.draft);
        lemma_highest_after_creation(before, last.account_id, last.draft, project_id);
        assert forall|i: int| 0 <= i < before.rows.len() implies #[trigger] after.rows[i]
            == before.rows[i] by {}
        assert forall|k: int|
            0 <= k < creations.len() && (#[trigger] creations[k]).draft.project_id == Some(
                project_id,
            ) implies after.rows[table.rows.len() + k].project_todo_number == Some(
            max_project_todo_number(table.rows, project_id) + creations_in(
                creations.take(k),
                project_id,
            ) + 1,
        ) by {
            if k < front.len() {
                assert(front[k] == creations[k]);
                assert(front.take(k) =~= creations.take(k));
                assert(after.rows[table.rows.len() + k] == before.rows[table.rows.len() + k]);
            } else {
                assert(creations.take(k) =~= front);
                assert(after.rows[table.rows.len() + k] == new_todo(
                    before,
                    last.account_id,
                    last.draft,
                ));
            }
        }
    }
}

/// All of a run of creations that go to one project, which had no todo
/// before, are numbered 1, 2, 3 and so on in the order of the run: the
/// numbers are pairwise distinct and none is above the count of creations.
pub proof fn law_creations_in_one_project(
    table: TodosView,
    creations: Seq<Creation>,
    project_id: i64,
)
    requires
        todos_valid(table),
        forall|i: int|
            0 <= i < table.rows.len() ==> !in_project(#[trigger] table.rows[i], project_id),
        forall|k: int|
            0 <= k < creations.len() ==> (#[trigger] creations[k]).draft.project_id == Some(
                project_id,
            ),
    ensures
        forall|k: int|
            0 <= k < creations.len() ==> (#[trigger] after_creations(
                table,
                creations,
            ).rows[table.rows.len() + k]).project_todo_number == Some(k + 1),
        forall|j: int, k: int|
            0 <= j < k < creations.len() ==> (#[trigger] after_creations(
                table,
                creations,
            ).rows[table.rows.len() + j]).project_todo_number != (#[trigger] after_creations(
                table,
                creations,
            ).rows[table.rows.len() + k]).project_todo_number,
{
    lemma_highest_number(table.rows, project_id, 0);
    law_creations_are_numbered_in_order(table, creations, project_id);
    assert forall|k: int| 0 <= k < creations.len() implies (#[trigger] after_creations(
        table,
        creations,
    ).rows[table.rows.len() + k]).project_todo_number == Some(k + 1) by {
        assert(creations[k].draft.project_id == Some(project_id));
        lemma_all_creations_in(creations.take(k), project_id);
    }
}

proof fn lemma_all_creations_in(creations: Seq<Creation>, project_id: i64)
    requires
        forall|k: int|
            0 <= k < creations.len() ==> (#[trigger] creations[k]).draft.project_id == Some(
                project_id,
            ),
    ensures
        creations_in(creations, project_id) == creations.len(),
    decreases creations.len(),
{
    if creations.len() > 0 {
        let front = creations.drop_last();
        assert forall|k: int| 0 <= k < front.len() implies (#[trigger] front[k]).draft.project_id
            == Some(project_id) by {
            assert(front[k] == creations[k]);
        }
        lemma_all_creations_in(front, project_id);
        assert(creations.last() == creations[creations.len() - 1]);
    }
}

/// A project that has just been created holds no todo, as long as every todo
/// names a project that the project table has created: the first todo that
/// enters the new project is numbered 1. Creating the project keeps every
/// todo's project known.
pub proof fn law_new_project_starts_at_one(
    todos: TodosView,
    projects: ProjectsView,
    account_id: int,
    shortcode: Seq<char>,
    project_name: Seq<char>,
    project_id: i64,
)
    requires
        projects_known(todos, projects),
        project_id == projects.next_id,
    ensures
        project_created(projects, account_id, shortcode, project_name).rows.last().id
            == project_id,
        projects_known(todos, project_created(projects, account_id, shortcode, project_name)),
        forall|i: int|
            0 <= i < todos.rows.len() ==> !in_project(#[trigger] todos.rows[i], project_id),
        max_project_todo_number(todos.rows, project_id) == 0,
        next_project_todo_number(todos.rows, Some(project_id)) == Some(1int),
{
    lemma_highest_number(todos.rows, project_id, 0);
}

/// Rewriting a todo without changing its project leaves its number as it
/// was, and every other row too.
pub proof fn law_rewrite_in_place_keeps_number(table: TodosView, todo_id: int, draft: TodoDraft)
    requires
        todos_valid(table),
        has_todo(table.rows, todo_id),
        table.rows[index_of_todo(table.rows, todo_id)].project_id == draft.project_id,
    ensures
        ({
            let at = index_of_todo(table.rows, todo_id);
            todo_updated(table, todo_id, draft).rows[at].project_todo_number
                == table.rows[at].project_todo_number
        }),
        forall|i: int|
            0 <= i < table.rows.len() && i != index_of_todo(table.rows, todo_id)
                ==> #[trigger] todo_updated(table, todo_id, draft).rows[i] == table.rows[i],
{
}

/// Moving a todo from one project to another numbers it one above the
/// highest number of the project it enters, or 1 if that project has no
/// todo. No other row changes: the todos of the project it left keep their
/// numbers. Unless the todo carried the highest number of the project it
/// left, that project's highest number stays, so the number left behind is
/// below the next one handed out there.
pub proof fn law_move_between_projects(
    table: TodosView,
    todo_id: int,
    draft: TodoDraft,
    from: i64,
    to: i64,
)
    requires
        todos_valid(table),
        has_todo(table.rows, todo_id),
        table.rows[index_of_todo(table.rows, todo_id)].project_id == Some(from),
        draft.project_id == Some(to),
        from != to,
    ensures
        todo_updated(table, todo_id, draft).rows.len() == table.rows.len(),
        todo_updated(table, todo_id, draft).rows[index_of_todo(
            table.rows,
            todo_id,
        )].project_todo_number == Some(max_project_todo_number(table.rows, to) + 1),
        max_project_todo_number(table.rows, to) >= 0,
        forall|i: int|
            0 <= i < table.rows.len() && i != index_of_todo(table.rows, todo_id)
                ==> #[trigger] todo_updated(table, todo_id, draft).rows[i] == table.rows[i],
        table.rows[index_of_todo(table.rows, todo_id)].project_todo_number matches Some(left)
            && left < max_project_todo_number(table.rows, from) ==> max_project_todo_number(
            todo_updated(table, todo_id, draft).rows,
            from,
        ) == max_project_todo_number(table.rows, from),
{
    let at = index_of_todo(table.rows, todo_id);
    let after = todo_updated(table, todo_id, draft).rows;
    lemma_max_project_todo_number_bounds(table.rows, to);
    lemma_max_project_todo_number_bounds(table.rows, from);
    lemma_max_project_todo_number_is_used(table.rows, from);
    let highest = max_project_todo_number(table.rows, from);
    if table.rows[at].project_todo_number matches Some(left) && left < highest {
        let top = choose|i: int|
            0 <= i < table.rows.len() && in_project(#[trigger] table.rows[i], from)
                && table.rows[i].project_todo_number == Some(highest);
        assert(top != at);
        assert(after[top] == table.rows[top]);
        assert forall|i: int|
            0 <= i < after.len() && in_project(#[trigger] after[i], from) implies (
        after[i].project_todo_number matches Some(n) ==> n <= highest) by {
            assert(i != at);
            assert(after[i] == table.rows[i]);
        }
        lemma_highest_number(after, from, highest);
    }
}

/// Moving a todo out of every project takes its number away, and changes no
/// other row.
pub proof fn law_leaving_all_projects_clears_number(
    table: TodosView,
    todo_id: int,
    draft: TodoDraft,
)
    requires
        todos_valid(table),
        has_todo(table.rows, todo_id),
        draft.project_id is None,
    ensures
        todo_updated(table, todo_id, draft).rows[index_of_todo(
            table.rows,
            todo_id,
        )].project_todo_number is None,
        forall|i: int|
            0 <= i < table.rows.len() && i != index_of_todo(table.rows, todo_id)
                ==> #[trigger] todo_updated(table, todo_id, draft).rows[i] == table.rows[i],
{
    let at = index_of_todo(table.rows, todo_id);
    assert(table.rows[at].project_id is None <==> table.rows[at].project_todo_number is None);
}

} // verus!
