//! The request handlers' pure decisions: validation of decoded input before
//! any data access, the merge step of a partial update, and the mapping from
//! every data-access outcome to an HTTP status and body.

use crate::todo::merge_update;
use crate::todo::spec_merge;
use crate::todo::valid_title;
use crate::todo::CreateTodo;
use crate::todo::Todo;
use crate::todo::UpdateTodo;
use vstd::prelude::*;
use vstd::string::StrSliceExecFns;
use vstd::string::StringExecFns;

verus! {

/// Success.
pub const STATUS_OK: u16 = 200;

/// A client input error: malformed body or malformed path identifier,
/// detected before any data access.
pub const STATUS_BAD_REQUEST: u16 = 400;

/// Absence of a record for the given identifier.
pub const STATUS_NOT_FOUND: u16 = 404;

/// A store or connectivity failure.
pub const STATUS_INTERNAL_ERROR: u16 = 500;

/// A store or connectivity failure, as the data layer reports it; the
/// specific detail is deliberately swallowed.
pub struct DbError {}

/// The body of a response.
pub enum Body {
    /// No body.
    Empty,
    /// One record.
    Item(Todo),
    /// All records.
    Items(Vec<Todo>),
    /// A fixed message.
    Text(String),
}

/// An HTTP response: a status and a body.
pub struct Response {
    pub status: u16,
    pub body: Body,
}

/// Listing always succeeds with the fetched sequence; a store failure is
/// mapped to an internal error with the detail swallowed.
pub fn list_todos(fetched: Result<Vec<Todo>, DbError>) -> (r: Response)
    ensures
        match fetched {
            Ok(todos) => r.status == STATUS_OK && (r.body matches Body::Items(v) && v == todos),
            Err(_) => r.status == STATUS_INTERNAL_ERROR && r.body is Empty,
        },
{
    match fetched {
        Ok(todos) => Response { status: STATUS_OK, body: Body::Items(todos) },
        Err(_) => Response { status: STATUS_INTERNAL_ERROR, body: Body::Empty },
    }
}

/// Validates a creation body before any data access: a non-empty title
/// passes through to be persisted, anything else is rejected with a client
/// error.
pub fn create_todo(body: CreateTodo) -> (r: Result<String, Response>)
    ensures
        match r {
            Ok(title) => valid_title(body.title@) && title@ == body.title@,
            Err(resp) => !valid_title(body.title@) && resp.status == STATUS_BAD_REQUEST,
        },
{
    if body.title.as_str().unicode_len() == 0 {
        Err(
            Response {
                status: STATUS_BAD_REQUEST,
                body: Body::Text(String::from_str("title must be a non-empty string")),
            },
        )
    } else {
        Ok(body.title)
    }
}

/// Maps the outcome of persisting a new record: the created record on
/// success, an internal error with the detail swallowed on a store failure.
pub fn create_result(inserted: Result<Todo, DbError>) -> (r: Response)
    ensures
        match inserted {
            Ok(todo) => r.status == STATUS_OK && (r.body matches Body::Item(t) && t == todo),
            Err(_) => r.status == STATUS_INTERNAL_ERROR && r.body is Empty,
        },
{
    match inserted {
        Ok(todo) => Response { status: STATUS_OK, body: Body::Item(todo) },
        Err(_) => Response { status: STATUS_INTERNAL_ERROR, body: Body::Empty },
    }
}

/// Maps the outcome of a lookup: presence to success with the record,
/// absence to not-found (a first-class outcome, never an internal error),
/// and a store failure to an internal error.
pub fn get_todo(fetched: Result<Option<Todo>, DbError>) -> (r: Response)
    ensures
        match fetched {
            Ok(Some(todo)) => r.status == STATUS_OK && (r.body matches Body::Item(t) && t
                == todo),
            Ok(None) => r.status == STATUS_NOT_FOUND && r.body is Empty,
            Err(_) => r.status == STATUS_INTERNAL_ERROR && r.body is Empty,
        },
{
    match fetched {
        Ok(Some(todo)) => Response { status: STATUS_OK, body: Body::Item(todo) },
        Ok(None) => Response { status: STATUS_NOT_FOUND, body: Body::Empty },
        Err(_) => Response { status: STATUS_INTERNAL_ERROR, body: Body::Empty },
    }
}

/// Deletion is acknowledged irrespective of the outcome: a store failure is
/// deliberately suppressed, consistent with idempotent-delete semantics.
pub fn delete_todo(acked: Result<u64, DbError>) -> (r: Response)
    ensures
        r.status == STATUS_OK,
        r.body matches Body::Text(m) && m@ == "Deleted"@,
{
    let _ = acked;
    Response { status: STATUS_OK, body: Body::Text(String::from_str("Deleted")) }
}

/// The decision after a partial update's read step: a read failure becomes
/// an internal error, absence becomes not-found, and a present record is
/// merged with the supplied fields into the row to be written back.
pub fn update_todo(read: Result<Option<Todo>, DbError>, body: &UpdateTodo) -> (r: Result<
    Todo,
    Response,
>)
    ensures
        match r {
            Ok(merged) => (read matches Ok(Some(cur)) && merged@ == spec_merge(cur@, body@)),
            Err(resp) => match read {
                Ok(Some(_)) => false,
                Ok(None) => resp.status == STATUS_NOT_FOUND && (resp.body matches Body::Text(m)
                    && m@ == "Task not found"@),
                Err(_) => resp.status == STATUS_INTERNAL_ERROR && (resp.body matches Body::Text(
                    m,
                ) && m@ == "database error"@),
            },
        },
{
    match read {
        Ok(Some(cur)) => Ok(merge_update(&cur, body)),
        Ok(None) => Err(
            Response {
                status: STATUS_NOT_FOUND,
                body: Body::Text(String::from_str("Task not found")),
            },
        ),
        Err(_) => Err(
            Response {
                status: STATUS_INTERNAL_ERROR,
                body: Body::Text(String::from_str("database error")),
            },
        ),
    }
}

/// Maps the outcome of a partial update's write step: the updated record on
/// success, a distinct internal-error message on a write failure.
pub fn update_result(written: Result<Todo, DbError>) -> (r: Response)
    ensures
        match written {
            Ok(todo) => r.status == STATUS_OK && (r.body matches Body::Item(t) && t == todo),
            Err(_) => r.status == STATUS_INTERNAL_ERROR && (r.body matches Body::Text(m) && m@
                == "Update failed"@),
        },
{
    match written {
        Ok(todo) => Response { status: STATUS_OK, body: Body::Item(todo) },
        Err(_) => Response {
            status: STATUS_INTERNAL_ERROR,
            body: Body::Text(String::from_str("Update failed")),
        },
    }
}

} // verus!
