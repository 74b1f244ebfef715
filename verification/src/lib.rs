//! A verified core for a small task-management service: the `Todo` record
//! model, the exact semantics of the persisted collection, and the pure
//! request-handling decisions (validation before any data access, the
//! partial-update merge, and the mapping from every data-access outcome to
//! an HTTP status and body), together with the laws that hold of them.
//!
//! Two small line-oriented text utilities share the crate: the decision
//! cores of a file-concatenation command and of an echo command.

use vstd::prelude::*;

pub mod cat;
pub mod echo;
pub mod http;
pub mod ids;
pub mod laws;
pub mod service;
pub mod store;
pub mod text;
pub mod todo;

pub use http::Body;
pub use http::DbError;
pub use http::Response;
pub use service::ConnPool;
pub use store::TodoStore;
pub use todo::CreateTodo;
pub use todo::Todo;
pub use todo::UpdateTodo;

verus! {

/// The fixed upper bound on concurrent live connections in the shared pool.
pub const POOL_MAX_CONNECTIONS: u32 = 5;

} // verus!
