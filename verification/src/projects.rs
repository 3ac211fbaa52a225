//! Projects: named groups of todos, each owned by one account.

use crate::auth::AccountId;
use crate::response::{APIResponse, ErrorResponse, StatusCode, SuccessResponse};
use vstd::prelude::*;

verus! {

/// A project as its owner sees it.
#[derive(Debug)]
pub struct PublicProject {
    pub id: i64,
    pub shortcode: String,
    pub project_name: String,
}

/// The body of a request that creates or updates a project.
#[derive(Debug)]
pub struct CreateOrUpdateProjectRequest {
    pub shortcode: String,
    pub project_name: String,
}

/// One row of the project table.
#[derive(Debug)]
pub struct ProjectRow {
    pub id: i64,
    pub account_id: i32,
    pub shortcode: String,
    pub project_name: String,
}

/// A project row as a mathematical value.
pub struct ProjectView {
    pub id: int,
    pub account_id: int,
    pub shortcode: Seq<char>,
    pub project_name: Seq<char>,
}

impl View for ProjectRow {
    type V = ProjectView;

    open spec fn view(&self) -> ProjectView {
        ProjectView {
            id: self.id as int,
            account_id: self.account_id as int,
            shortcode: self.shortcode@,
            project_name: self.project_name@,
        }
    }
}

impl ProjectRow {
    /// The public form of the row.
    pub fn public(&self) -> (project: PublicProject)
        ensures
            project.shows(self@),
    {
        PublicProject {
            id: self.id,
            shortcode: self.shortcode.clone(),
            project_name: self.project_name.clone(),
        }
    }
}

impl PublicProject {
    /// Whether this is the public form of the given row.
    pub open spec fn shows(self, row: ProjectView) -> bool {
        &&& self.id == row.id
        &&& self.shortcode@ == row.shortcode
        &&& self.project_name@ == row.project_name
    }
}

/// The project table as a mathematical value: its rows in the order of
/// their creation, and the identifier that the next row gets.
pub struct ProjectsView {
    pub rows: Seq<ProjectView>,
    pub next_id: int,
}

/// Whether the account owns a project with this identifier.
pub open spec fn owns_project(rows: Seq<ProjectView>, account_id: int, project_id: int) -> bool {
    exists|i: int|
        0 <= i < rows.len() && (#[trigger] rows[i]).id == project_id && rows[i].account_id
            == account_id
}

/// The rows that belong to an account, in table order.
pub open spec fn projects_of(rows: Seq<ProjectView>, account_id: int) -> Seq<ProjectView>
    decreases rows.len(),
{
    if rows.len() == 0 {
        Seq::empty()
    } else if rows.last().account_id == account_id {
        projects_of(rows.drop_last(), account_id).push(rows.last())
    } else {
        projects_of(rows.drop_last(), account_id)
    }
}

/// The table's invariant: identifiers are positive, below the next one to be
/// handed out, and pairwise distinct.
pub open spec fn projects_valid(table: ProjectsView) -> bool {
    &&& 1 <= table.next_id
    &&& forall|i: int|
        0 <= i < table.rows.len() ==> 1 <= (#[trigger] table.rows[i]).id < table.next_id
    &&& forall|i: int, j: int|
        0 <= i < j < table.rows.len() ==> (#[trigger] table.rows[i]).id != (
        #[trigger] table.rows[j]).id
}

/// The table after the account has created a project.
pub open spec fn project_created(
    table: ProjectsView,
    account_id: int,
    shortcode: Seq<char>,
    project_name: Seq<char>,
) -> ProjectsView {
    ProjectsView {
        rows: table.rows.push(
            ProjectView { id: table.next_id, account_id, shortcode, project_name },
        ),
        next_id: table.next_id + 1,
    }
}

/// The project table, held in memory.
pub struct ProjectTable {
    rows: Vec<ProjectRow>,
    next_id: i64,
}

impl View for ProjectTable {
    type V = ProjectsView;

    closed spec fn view(&self) -> ProjectsView {
        ProjectsView {
            rows: Seq::new(self.rows@.len(), |i: int| self.rows@[i]@),
            next_id: self.next_id as int,
        }
    }
}

impl ProjectTable {
    /// Whether the table meets its invariant.
    pub open spec fn wf(&self) -> bool {
        projects_valid(self@)
    }

    /// An empty table, whose first row will get the identifier 1.
    pub fn new() -> (table: Self)
        ensures
            table.wf(),
            table@ == (ProjectsView { rows: Seq::empty(), next_id: 1 }),
    {
        let table = ProjectTable { rows: Vec::new(), next_id: 1 };
        assert(table@.rows =~= Seq::empty());
        table
    }

    /// Counts the rows with this identifier and owner: 1 or 0.
    pub fn count_owned(&self, project_id: i64, account_id: i32) -> (count: i64)
        requires
            self.wf(),
        ensures
            count == (if owns_project(self@.rows, account_id as int, project_id as int) {
                1int
            } else {
                0int
            }),
    {
        let mut i: usize = 0;
        while i < self.rows.len()
            invariant
                i <= self.rows@.len(),
                forall|j: int|
                    0 <= j < i ==> !((#[trigger] self@.rows[j]).id == project_id
                        && self@.rows[j].account_id == account_id),
            decreases self.rows@.len() - i,
        {
            if self.rows[i].id == project_id && self.rows[i].account_id == account_id {
                assert(self@.rows[i as int].id == project_id);
                return 1;
            }
            i += 1;
        }
        0
    }

    /// The projects of an account, in table order.
    pub fn list(&self, account_id: i32) -> (projects: Vec<PublicProject>)
        ensures
            projects@.len() == projects_of(self@.rows, account_id as int).len(),
            forall|k: int|
                0 <= k < projects@.len() ==> (#[trigger] projects@[k]).shows(
                    projects_of(self@.rows, account_id as int)[k],
                ),
    {
        let mut projects: Vec<PublicProject> = Vec::new();
        let mut i: usize = 0;
        assert(self@.rows.take(0) =~= Seq::empty());
        while i < self.rows.len()
            invariant
                i <= self.rows@.len(),
                self@.rows.len() == self.rows@.len(),
                projects@.len() == projects_of(self@.rows.take(i as int), account_id as int).len(),
                forall|k: int|
                    0 <= k < projects@.len() ==> (#[trigger] projects@[k]).shows(
                        projects_of(self@.rows.take(i as int), account_id as int)[k],
                    ),
            decreases self.rows@.len() - i,
        {
            assert(self@.rows.take(i + 1).drop_last() =~= self@.rows.take(i as int));
            assert(self@.rows.take(i + 1).last() == self.rows@[i as int]@);
            if self.rows[i].account_id == account_id {
                projects.push(self.rows[i].public());
            }
            i += 1;
        }
        assert(self@.rows.take(i as int) =~= self@.rows);
        projects
    }

    /// Adds a project for the account. Returns `None`, and changes nothing,
    /// where no identifier is left to hand out.
    pub fn insert(&mut self, account_id: i32, shortcode: String, project_name: String) -> (created:
        Option<PublicProject>)
        requires
            old(self).wf(),
        ensures
            final(self).wf(),
            match created {
                Some(project) => {
                    &&& old(self)@.next_id < i64::MAX
                    &&& final(self)@ == project_created(
                        old(self)@,
                        account_id as int,
                        shortcode@,
                        project_name@,
                    )
                    &&& project.shows(final(self)@.rows.last())
                },
                None => old(self)@.next_id == i64::MAX && final(self)@ == old(self)@,
            },
    {
        if self.next_id == i64::MAX {
            return None;
        }
        let id = self.next_id;
        let row = ProjectRow { id, account_id, shortcode, project_name };
        let project = row.public();
        self.rows.push(row);
        self.next_id = id + 1;
        proof {
            let expected = project_created(
                old(self)@,
                account_id as int,
                shortcode@,
                project_name@,
            );
            assert(self@.rows =~= expected.rows);
            assert forall|i: int, j: int| 0 <= i < j < self@.rows.len() implies (
            #[trigger] self@.rows[i]).id != (#[trigger] self@.rows[j]).id by {
                if j < old(self)@.rows.len() {
                    assert(old(self)@.rows[i].id != old(self)@.rows[j].id);
                } else {
                    assert(old(self)@.rows[i].id < old(self)@.next_id);
                }
            }
        }
        Some(project)
    }
}

/// Lists the projects of the calling account.
pub fn get_projects(projects: &ProjectTable, account_id: AccountId) -> (response: APIResponse<
    Vec<PublicProject>,
>)
    ensures
        response matches Ok(listed) && listed.success && listed.data@.len() == projects_of(
            projects@.rows,
            account_id.0 as int,
        ).len() && forall|k: int|
            0 <= k < listed.data@.len() ==> (#[trigger] listed.data@[k]).shows(
                projects_of(projects@.rows, account_id.0 as int)[k],
            ),
{
    Ok(SuccessResponse { success: true, data: projects.list(account_id.0) })
}

/// Creates a project for the calling account.
pub fn post_projects(
    projects: &mut ProjectTable,
    account_id: AccountId,
    req: CreateOrUpdateProjectRequest,
) -> (response: APIResponse<PublicProject>)
    requires
        old(projects).wf(),
    ensures
        final(projects).wf(),
        match response {
            Ok(created) => {
                &&& old(projects)@.next_id < i64::MAX
                &&& final(projects)@ == project_created(
                    old(projects)@,
                    account_id.0 as int,
                    req.shortcode@,
                    req.project_name@,
                )
                &&& created.success
                &&& created.data.shows(final(projects)@.rows.last())
            },
            Err(failure) => {
                &&& old(projects)@.next_id == i64::MAX
                &&& final(projects)@ == old(projects)@
                &&& failure.has(StatusCode::BadRequest, "Failed to create project."@)
            },
        },
{
    match projects.insert(account_id.0, req.shortcode, req.project_name) {
        Some(project) => Ok(SuccessResponse { success: true, data: project }),
        None => Err(ErrorResponse::from(StatusCode::BadRequest, "Failed to create project.")),
    }
}

/// Updating a project is not offered: every such request is answered as not
/// found, and nothing is changed.
pub fn post_project(
    account_id: AccountId,
    project_id: i64,
    req: CreateOrUpdateProjectRequest,
) -> (response: APIResponse<()>)
    ensures
        response matches Err(failure) && failure.has(StatusCode::NotFound, "Unimplemented"@),
{
    Err(ErrorResponse::from(StatusCode::NotFound, "Unimplemented"))
}

} // verus!
