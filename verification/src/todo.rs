//! The `Todo` record and the two request bodies, together with their
//! mathematical views and the partial-update merge rule.

use vstd::prelude::*;

verus! {

/// Mathematical value of a [`Todo`] record.
#[verifier::ext_equal]
pub ghost struct TodoView {
    pub id: u128,
    pub title: Seq<char>,
    pub completed: bool,
    pub created_at: i64,
}

/// One persisted task record.
///
/// The identifier is a 128-bit value chosen by the server at creation time;
/// the creation timestamp is assigned once at insertion and is the sole sort
/// key for listing.
pub struct Todo {
    pub id: u128,
    pub title: String,
    pub completed: bool,
    pub created_at: i64,
}

impl View for Todo {
    type V = TodoView;

    open spec fn view(&self) -> TodoView {
        TodoView {
            id: self.id,
            title: self.title@,
            completed: self.completed,
            created_at: self.created_at,
        }
    }
}

impl Clone for Todo {
    fn clone(&self) -> (r: Todo)
        ensures
            r@ == self@,
    {
        Todo {
            id: self.id,
            title: self.title.clone(),
            completed: self.completed,
            created_at: self.created_at,
        }
    }
}

/// Decoded body of a creation request: the client supplies only the title.
pub struct CreateTodo {
    pub title: String,
}

/// A creation request is well-formed exactly when its title is non-empty.
pub open spec fn valid_title(title: Seq<char>) -> bool {
    title.len() > 0
}

/// Mathematical value of an [`UpdateTodo`] body.
#[verifier::ext_equal]
pub ghost struct UpdateView {
    pub title: Option<Seq<char>>,
    pub completed: Option<bool>,
}

/// Decoded body of a partial-update request: each field is replaced only
/// when it is explicitly present.
pub struct UpdateTodo {
    pub title: Option<String>,
    pub completed: Option<bool>,
}

impl View for UpdateTodo {
    type V = UpdateView;

    open spec fn view(&self) -> UpdateView {
        UpdateView {
            title: match self.title {
                Some(t) => Some(t@),
                None => None,
            },
            completed: self.completed,
        }
    }
}

/// The field-by-field override rule of a partial update: a field present in
/// the request replaces the stored value, an omitted field is carried over
/// unchanged; identifier and creation timestamp are immutable.
pub open spec fn spec_merge(current: TodoView, upd: UpdateView) -> TodoView {
    TodoView {
        id: current.id,
        title: match upd.title {
            Some(t) => t,
            None => current.title,
        },
        completed: match upd.completed {
            Some(c) => c,
            None => current.completed,
        },
        created_at: current.created_at,
    }
}

/// Merges a partial-update body over the current stored record.
pub fn merge_update(current: &Todo, upd: &UpdateTodo) -> (r: Todo)
    ensures
        r@ == spec_merge(current@, upd@),
{
    let title = match &upd.title {
        Some(t) => t.clone(),
        None => current.title.clone(),
    };
    let completed = match upd.completed {
        Some(c) => c,
        None => current.completed,
    };
    Todo { id: current.id, title, completed, created_at: current.created_at }
}

} // verus!
