//! File attachments. None of these operations is offered yet: each answers
//! that there is nothing at its address.

use crate::response::{APIResponse, ErrorResponse, StatusCode};
use vstd::prelude::*;

verus! {

fn not_yet_implemented() -> (response: APIResponse<()>)
    ensures
        response matches Err(failure) && failure.has(
            StatusCode::NotFound,
            "Not yet implemented."@,
        ),
{
    Err(ErrorResponse::from(StatusCode::NotFound, "Not yet implemented."))
}

/// The attachments of a todo.
pub fn get_todo_files() -> (response: APIResponse<()>)
    ensures
        response matches Err(failure) && failure.has(
            StatusCode::NotFound,
            "Not yet implemented."@,
        ),
{
    not_yet_implemented()
}

/// Attaches files to a todo.
pub fn post_todo_files() -> (response: APIResponse<()>)
    ensures
        response matches Err(failure) && failure.has(
            StatusCode::NotFound,
            "Not yet implemented."@,
        ),
{
    not_yet_implemented()
}

/// One attachment of a todo.
pub fn get_todo_file() -> (response: APIResponse<()>)
    ensures
        response matches Err(failure) && failure.has(
            StatusCode::NotFound,
            "Not yet implemented."@,
        ),
{
    not_yet_implemented()
}

/// Replaces one attachment of a todo.
pub fn post_todo_file() -> (response: APIResponse<()>)
    ensures
        response matches Err(failure) && failure.has(
            StatusCode::NotFound,
            "Not yet implemented."@,
        ),
{
    not_yet_implemented()
}

/// All files of the caller.
pub fn get_files() -> (response: APIResponse<()>)
    ensures
        response matches Err(failure) && failure.has(
            StatusCode::NotFound,
            "Not yet implemented."@,
        ),
{
    not_yet_implemented()
}

} // verus!
