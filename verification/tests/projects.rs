use eve_server::auth::AccountId;
use eve_server::projects::{
    get_projects, post_project, post_projects, CreateOrUpdateProjectRequest, ProjectTable,
};
use eve_server::response::StatusCode;

fn request(shortcode: &str, project_name: &str) -> CreateOrUpdateProjectRequest {
    CreateOrUpdateProjectRequest {
        shortcode: shortcode.to_string(),
        project_name: project_name.to_string(),
    }
}

#[test]
fn created_projects_get_ids_from_one_upwards() {
    let mut projects = ProjectTable::new();
    let first = post_projects(&mut projects, AccountId(1), request("HOME", "Household")).ok().unwrap();
    assert!(first.success);
    assert_eq!(first.data.id, 1);
    assert_eq!(first.data.shortcode, "HOME");
    assert_eq!(first.data.project_name, "Household");
    let second = post_projects(&mut projects, AccountId(2), request("HOME", "Other")).ok().unwrap();
    assert_eq!(second.data.id, 2);
    assert_eq!(second.data.shortcode, "HOME");
}

#[test]
fn projects_are_listed_per_account_in_creation_order() {
    let mut projects = ProjectTable::new();
    post_projects(&mut projects, AccountId(1), request("A", "First")).ok().unwrap();
    post_projects(&mut projects, AccountId(2), request("B", "Second")).ok().unwrap();
    post_projects(&mut projects, AccountId(1), request("C", "Third")).ok().unwrap();
    let listed = get_projects(&projects, AccountId(1)).ok().unwrap();
    assert!(listed.success);
    let codes: Vec<(i64, &str, &str)> = listed
        .data
        .iter()
        .map(|p| (p.id, p.shortcode.as_str(), p.project_name.as_str()))
        .collect();
    assert_eq!(codes, vec![(1, "A", "First"), (3, "C", "Third")]);
    assert_eq!(get_projects(&projects, AccountId(2)).ok().unwrap().data.len(), 1);
    assert!(get_projects(&projects, AccountId(3)).ok().unwrap().data.is_empty());
}

#[test]
fn ownership_counts_one_for_the_owner_only() {
    let mut projects = ProjectTable::new();
    post_projects(&mut projects, AccountId(1), request("A", "First")).ok().unwrap();
    assert_eq!(projects.count_owned(1, 1), 1);
    assert_eq!(projects.count_owned(1, 2), 0);
    assert_eq!(projects.count_owned(2, 1), 0);
}

#[test]
fn updating_a_project_is_not_offered() {
    let mut projects = ProjectTable::new();
    post_projects(&mut projects, AccountId(1), request("A", "First")).ok().unwrap();
    let failure = post_project(AccountId(1), 1, request("B", "Changed")).err().unwrap();
    assert_eq!(failure.status_code, StatusCode::NotFound);
    assert_eq!(failure.body.message, "Unimplemented");
    let listed = get_projects(&projects, AccountId(1)).ok().unwrap();
    assert_eq!(listed.data[0].shortcode, "A");
}
