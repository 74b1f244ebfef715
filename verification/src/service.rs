//! The five operations composed end to end against the store model: decode
//! and validate, perform the one data-access step, and map the outcome to a
//! response.  Malformed input is rejected before the store is touched.

use crate::http::create_result;
use crate::http::create_todo;
use crate::http::get_todo;
use crate::http::list_todos;
use crate::http::update_result;
use crate::http::Body;
use crate::http::Response;
use crate::http::DbError;
use crate::http::STATUS_BAD_REQUEST;
use crate::http::STATUS_INTERNAL_ERROR;
use crate::http::STATUS_NOT_FOUND;
use crate::http::STATUS_OK;
use crate::ids::decode_id;
use crate::ids::fresh_id;
use crate::ids::parsed_id;
use crate::store::contains_id;
use crate::store::idx_of;
use crate::store::spec_create;
use crate::store::spec_delete;
use crate::store::spec_get;
use crate::store::spec_list;
use crate::store::spec_update;
use crate::store::views_of;
use crate::store::TodoStore;
use crate::todo::spec_merge;
use crate::todo::valid_title;
use crate::todo::CreateTodo;
use crate::todo::TodoView;
use crate::todo::UpdateTodo;
use vstd::prelude::*;
use vstd::string::StringExecFns;

verus! {

/// Lists every record, newest first; always a success.
pub fn handle_list(store: &TodoStore) -> (r: Response)
    requires
        store.wf(),
    ensures
        r.status == STATUS_OK,
        r.body matches Body::Items(v) && views_of(v@) == spec_list(store@),
{
    list_todos(Ok(store.list()))
}

/// Creation with the identifier and timestamp the server chose: rejects an
/// empty title before any data access; a duplicate identifier or a timestamp
/// behind the newest record is a store-level rejection, surfaced as an
/// internal error with the collection unchanged.
pub fn handle_create_with(store: &mut TodoStore, body: CreateTodo, id: u128, now: i64) -> (r:
    Response)
    requires
        old(store).wf(),
    ensures
        final(store).wf(),
        !valid_title(body.title@) ==> final(store)@ == old(store)@ && r.status
            == STATUS_BAD_REQUEST,
        valid_title(body.title@) && (contains_id(old(store)@, id) || !(old(store)@.len() == 0
            || old(store)@.last().created_at <= now)) ==> final(store)@ == old(store)@
            && r.status == STATUS_INTERNAL_ERROR,
        valid_title(body.title@) && !contains_id(old(store)@, id) && (old(store)@.len() == 0
            || old(store)@.last().created_at <= now) ==> final(store)@ == spec_create(
            old(store)@,
            body.title@,
            id,
            now,
        ) && r.status == STATUS_OK && (r.body matches Body::Item(t) && t@ == (TodoView {
            id,
            title: body.title@,
            completed: false,
            created_at: now,
        })),
{
    match create_todo(body) {
        Err(resp) => resp,
        Ok(title) => {
            if store.contains(id) || !store.accepts_time(now) {
                Response { status: STATUS_INTERNAL_ERROR, body: Body::Empty }
            } else {
                let created = store.create(title, id, now);
                create_result(Ok(created))
            }
        },
    }
}

/// Creation as a client sees it: the server draws a fresh random identifier.
/// An empty title is rejected before any data access; on success the new
/// record, with the drawn identifier, a false completed flag and the given
/// creation time, is appended and returned.
pub fn handle_create(store: &mut TodoStore, body: CreateTodo, now: i64) -> (r: Response)
    requires
        old(store).wf(),
    ensures
        final(store).wf(),
        !valid_title(body.title@) ==> final(store)@ == old(store)@ && r.status
            == STATUS_BAD_REQUEST,
        valid_title(body.title@) ==> r.status != STATUS_BAD_REQUEST,
        r.status == STATUS_OK ==> (r.body matches Body::Item(t) && valid_title(body.title@)
            && t@.title == body.title@ && t@.completed == false && t@.created_at == now
            && !contains_id(old(store)@, t@.id) && final(store)@ == spec_create(
            old(store)@,
            body.title@,
            t@.id,
            now,
        )),
        r.status != STATUS_OK && r.status != STATUS_BAD_REQUEST ==> final(store)@ == old(store)@
            && r.status == STATUS_INTERNAL_ERROR,
{
    let id = fresh_id();
    handle_create_with(store, body, id, now)
}

/// Lookup by a path-embedded identifier: malformed syntax is rejected before
/// any data access; absence is a not-found outcome, never an internal error.
pub fn handle_get(store: &TodoStore, raw_id: &str) -> (r: Response)
    requires
        store.wf(),
    ensures
        parsed_id(raw_id@) is None ==> r.status == STATUS_BAD_REQUEST,
        parsed_id(raw_id@) matches Some(id) ==> match spec_get(store@, id) {
            Some(row) => r.status == STATUS_OK && (r.body matches Body::Item(t) && t@ == row),
            None => r.status == STATUS_NOT_FOUND && r.body is Empty,
        },
{
    match decode_id(raw_id) {
        Err(resp) => resp,
        Ok(id) => get_todo(Ok(store.get(id))),
    }
}

/// Deletion by a path-embedded identifier: malformed syntax is rejected
/// before any data access; otherwise the record, if any, is physically
/// removed, and the acknowledgement comes back whether or not one existed.
pub fn handle_delete(store: &mut TodoStore, raw_id: &str) -> (r: Response)
    requires
        old(store).wf(),
    ensures
        final(store).wf(),
        parsed_id(raw_id@) is None ==> final(store)@ == old(store)@ && r.status
            == STATUS_BAD_REQUEST,
        parsed_id(raw_id@) matches Some(id) ==> final(store)@ == spec_delete(old(store)@, id)
            && r.status == STATUS_OK && (r.body matches Body::Text(m) && m@ == "Deleted"@),
{
    match decode_id(raw_id) {
        Err(resp) => resp,
        Ok(id) => {
            store.delete(id);
            crate::http::delete_todo(Ok(0))
        },
    }
}

/// Partial update by a path-embedded identifier: malformed syntax is
/// rejected before any data access; absence is a not-found outcome; on
/// success the supplied fields are merged over the stored record and the
/// updated record is returned.
pub fn handle_update(store: &mut TodoStore, raw_id: &str, body: &UpdateTodo) -> (r: Response)
    requires
        old(store).wf(),
    ensures
        final(store).wf(),
        parsed_id(raw_id@) is None ==> final(store)@ == old(store)@ && r.status
            == STATUS_BAD_REQUEST,
        parsed_id(raw_id@) matches Some(id) ==> final(store)@ == spec_update(
            old(store)@,
            id,
            body@,
        ) && (if contains_id(old(store)@, id) {
            r.status == STATUS_OK && (r.body matches Body::Item(t) && t@ == spec_merge(
                old(store)@[idx_of(old(store)@, id)],
                body@,
            ))
        } else {
            r.status == STATUS_NOT_FOUND && (r.body matches Body::Text(m) && m@
                == "Task not found"@)
        }),
{
    match decode_id(raw_id) {
        Err(resp) => resp,
        Ok(id) => {
            match store.update(id, body) {
                Some(updated) => update_result(Ok(updated)),
                None => Response {
                    status: STATUS_NOT_FOUND,
                    body: Body::Text(String::from_str("Task not found")),
                },
            }
        },
    }
}

/// A model of the bounded connection pool: the count of connections in use
/// never exceeds the fixed capacity, and an acquisition is granted exactly
/// when a connection is free.  Waiting for a free connection is the caller's
/// loop around [`ConnPool::try_acquire`].
pub struct ConnPool {
    pub capacity: u32,
    pub in_use: u32,
}

impl ConnPool {
    /// The pool bound: never more live connections than the capacity.
    pub open spec fn wf(&self) -> bool {
        self.in_use <= self.capacity
    }

    /// A fresh pool with the given bound and no connection in use.
    pub fn new(capacity: u32) -> (p: ConnPool)
        ensures
            p.wf(),
            p.capacity == capacity,
            p.in_use == 0,
    {
        ConnPool { capacity, in_use: 0 }
    }

    /// Grants a connection exactly when one is free; never oversubscribes.
    pub fn try_acquire(&mut self) -> (granted: bool)
        requires
            old(self).wf(),
        ensures
            final(self).wf(),
            final(self).capacity == old(self).capacity,
            granted == (old(self).in_use < old(self).capacity),
            granted ==> final(self).in_use == old(self).in_use + 1,
            !granted ==> final(self).in_use == old(self).in_use,
    {
        if self.in_use < self.capacity {
            self.in_use += 1;
            true
        } else {
            false
        }
    }

    /// Returns a connection to the pool; every acquired connection is
    /// returned on every exit path of an operation.
    pub fn release(&mut self)
        requires
            old(self).wf(),
            old(self).in_use > 0,
        ensures
            final(self).wf(),
            final(self).capacity == old(self).capacity,
            final(self).in_use == old(self).in_use - 1,
    {
        self.in_use -= 1;
    }
}

} // verus!
