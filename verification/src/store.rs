//! The semantics of the persisted `todos` collection: a bounded model of the
//! relational store, with the exact meaning of each data-access operation.
//!
//! The collection is a sequence of records in insertion order.  Creation
//! timestamps are assigned server-side and never decrease, so listing in
//! reverse insertion order is listing by creation time, newest first.

use crate::todo::spec_merge;
use crate::todo::merge_update;
use crate::todo::Todo;
use crate::todo::TodoView;
use crate::todo::UpdateTodo;
use crate::todo::UpdateView;
use vstd::prelude::*;

verus! {

/// The mathematical contents of a sequence of records.
pub open spec fn views_of(rows: Seq<Todo>) -> Seq<TodoView> {
    rows.map_values(|t: Todo| t@)
}

/// Some record in `s` carries the identifier `id`.
pub open spec fn contains_id(s: Seq<TodoView>, id: u128) -> bool {
    exists|i: int| 0 <= i < s.len() && s[i].id == id
}

/// No identifier occurs twice: the store's primary-key invariant.
pub open spec fn unique_ids(s: Seq<TodoView>) -> bool {
    forall|i: int, j: int| 0 <= i < j < s.len() ==> s[i].id != s[j].id
}

/// Creation timestamps never decrease along insertion order.
pub open spec fn time_ordered(s: Seq<TodoView>) -> bool {
    forall|i: int, j: int| 0 <= i <= j < s.len() ==> s[i].created_at <= s[j].created_at
}

/// The index of the record carrying `id`; meaningful only when
/// `contains_id(s, id)` holds (and then unique under `unique_ids`).
pub open spec fn idx_of(s: Seq<TodoView>, id: u128) -> int {
    choose|i: int| 0 <= i < s.len() && s[i].id == id
}

/// What a lookup returns: the record with that identifier, or nothing.
pub open spec fn spec_get(s: Seq<TodoView>, id: u128) -> Option<TodoView> {
    if contains_id(s, id) {
        Some(s[idx_of(s, id)])
    } else {
        None
    }
}

/// What a creation persists: the new record, appended.
pub open spec fn spec_create(
    s: Seq<TodoView>,
    title: Seq<char>,
    id: u128,
    created_at: i64,
) -> Seq<TodoView> {
    s.push(TodoView { id, title, completed: false, created_at })
}

/// What a deletion leaves: physical removal of the matching record, and no
/// change at all when none matches.
pub open spec fn spec_delete(s: Seq<TodoView>, id: u128) -> Seq<TodoView> {
    if contains_id(s, id) {
        s.remove(idx_of(s, id))
    } else {
        s
    }
}

/// What a partial update leaves: the matching record replaced by the merge
/// of the supplied fields over it, every other record untouched.
pub open spec fn spec_update(s: Seq<TodoView>, id: u128, upd: UpdateView) -> Seq<TodoView> {
    if contains_id(s, id) {
        s.update(idx_of(s, id), spec_merge(s[idx_of(s, id)], upd))
    } else {
        s
    }
}

/// What a listing returns: every record, newest first.
pub open spec fn spec_list(s: Seq<TodoView>) -> Seq<TodoView> {
    Seq::new(s.len(), |i: int| s[s.len() - 1 - i])
}

/// The model of the `todos` relation.
pub struct TodoStore {
    rows: Vec<Todo>,
}

impl View for TodoStore {
    type V = Seq<TodoView>;

    closed spec fn view(&self) -> Seq<TodoView> {
        views_of(self.rows@)
    }
}

impl TodoStore {
    /// The store's invariant: identifiers are unique and creation
    /// timestamps never decrease along insertion order.
    pub open spec fn wf(&self) -> bool {
        unique_ids(self@) && time_ordered(self@)
    }

    /// An empty collection.
    pub fn new() -> (s: TodoStore)
        ensures
            s@ == Seq::<TodoView>::empty(),
            s.wf(),
    {
        let s = TodoStore { rows: Vec::new() };
        proof {
            assert(s@ =~= Seq::<TodoView>::empty());
        }
        s
    }

    /// Index of the first record carrying `id`, if any.
    fn find(&self, id: u128) -> (r: Option<usize>)
        ensures
            match r {
                Some(i) => i < self@.len() && self@[i as int].id == id && (forall|j: int|
                    0 <= j < i ==> self@[j].id != id),
                None => !contains_id(self@, id),
            },
    {
        let n = self.rows.len();
        let mut i: usize = 0;
        while i < n
            invariant
                n == self@.len(),
                i <= n,
                forall|j: int| 0 <= j < i ==> self@[j].id != id,
            decreases n - i,
        {
            if self.rows[i].id == id {
                return Some(i);
            }
            i += 1;
        }
        None
    }

    /// Whether a record with this identifier is present.
    pub fn contains(&self, id: u128) -> (r: bool)
        ensures
            r == contains_id(self@, id),
    {
        match self.find(id) {
            Some(_) => true,
            None => false,
        }
    }

    /// Whether a record created now with timestamp `t` would keep insertion
    /// order aligned with creation time.
    pub fn accepts_time(&self, t: i64) -> (r: bool)
        ensures
            r == (self@.len() == 0 || self@.last().created_at <= t),
    {
        let n = self.rows.len();
        if n == 0 {
            true
        } else {
            self.rows[n - 1].created_at <= t
        }
    }

    /// Persists a new record with the server-chosen identifier and creation
    /// timestamp; `completed` defaults to false.
    pub fn create(&mut self, title: String, id: u128, created_at: i64) -> (r: Todo)
        requires
            old(self).wf(),
            !contains_id(old(self)@, id),
            old(self)@.len() == 0 || old(self)@.last().created_at <= created_at,
        ensures
            final(self)@ == spec_create(old(self)@, title@, id, created_at),
            r@ == (TodoView { id, title: title@, completed: false, created_at }),
            final(self).wf(),
    {
        let row = Todo { id, title, completed: false, created_at };
        let result = row.clone();
        self.rows.push(row);
        proof {
            assert(self@ =~= spec_create(old(self)@, result@.title, id, created_at));
            let s = self@;
            let n = old(self)@.len() as int;
            assert forall|i: int, j: int| 0 <= i < j < s.len() implies s[i].id != s[j].id by {
                if j == n {
                    assert(!contains_id(old(self)@, id));
                    assert(s[i] == old(self)@[i]);
                }
            }
            assert forall|i: int, j: int| 0 <= i <= j < s.len() implies s[i].created_at
                <= s[j].created_at by {
                if j == n && i < n {
                    assert(old(self)@[n - 1].created_at <= created_at);
                    assert(s[i].created_at <= old(self)@[n - 1].created_at);
                }
            }
        }
        result
    }

    /// Fetches the record with this identifier; absence is a first-class
    /// outcome, distinct from any failure.
    pub fn get(&self, id: u128) -> (r: Option<Todo>)
        requires
            self.wf(),
        ensures
            match r {
                Some(t) => spec_get(self@, id) == Some(t@),
                None => spec_get(self@, id) is None,
            },
    {
        match self.find(id) {
            Some(i) => {
                let t = self.rows[i].clone();
                proof {
                    lemma_idx_of_unique(self@, id, i as int);
                }
                Some(t)
            },
            None => None,
        }
    }

    /// Physically removes the record with this identifier; removing an
    /// absent identifier changes nothing and still succeeds.
    pub fn delete(&mut self, id: u128)
        requires
            old(self).wf(),
        ensures
            final(self)@ == spec_delete(old(self)@, id),
            final(self).wf(),
    {
        match self.find(id) {
            Some(i) => {
                proof {
                    lemma_idx_of_unique(old(self)@, id, i as int);
                }
                self.rows.remove(i);
                proof {
                    assert(self@ =~= old(self)@.remove(i as int));
                    lemma_remove_keeps_wf(old(self)@, i as int);
                }
            },
            None => {},
        }
    }

    /// Merges the supplied fields over the stored record and persists the
    /// result; yields the updated record, or nothing when the identifier is
    /// absent (in which case the collection is unchanged).
    pub fn update(&mut self, id: u128, upd: &UpdateTodo) -> (r: Option<Todo>)
        requires
            old(self).wf(),
        ensures
            final(self)@ == spec_update(old(self)@, id, upd@),
            final(self).wf(),
            match r {
                Some(t) => contains_id(old(self)@, id) && t@ == spec_merge(
                    old(self)@[idx_of(old(self)@, id)],
                    upd@,
                ),
                None => !contains_id(old(self)@, id),
            },
    {
        match self.find(id) {
            Some(i) => {
                proof {
                    lemma_idx_of_unique(old(self)@, id, i as int);
                }
                let merged = merge_update(&self.rows[i], upd);
                let result = merged.clone();
                self.rows[i] = merged;
                proof {
                    let s = old(self)@;
                    let m = spec_merge(s[i as int], upd@);
                    assert(self@ =~= s.update(i as int, m));
                    assert forall|p: int, q: int| 0 <= p < q < self@.len() implies self@[p].id
                        != self@[q].id by {
                        assert(self@[p].id == s[p].id);
                        assert(self@[q].id == s[q].id);
                    }
                    assert forall|p: int, q: int| 0 <= p <= q < self@.len() implies self@[p].created_at
                        <= self@[q].created_at by {
                        assert(self@[p].created_at == s[p].created_at);
                        assert(self@[q].created_at == s[q].created_at);
                    }
                }
                Some(result)
            },
            None => None,
        }
    }

    /// Yields every record, ordered by creation time descending (newest
    /// first): the reverse of insertion order.
    pub fn list(&self) -> (r: Vec<Todo>)
        requires
            self.wf(),
        ensures
            views_of(r@) == spec_list(self@),
    {
        let n = self.rows.len();
        let mut out: Vec<Todo> = Vec::new();
        let mut i: usize = n;
        while i > 0
            invariant
                n == self@.len(),
                i <= n,
                out@.len() == n - i,
                forall|k: int| 0 <= k < out@.len() ==> out@[k]@ == self@[n - 1 - k],
            decreases i,
        {
            i -= 1;
            out.push(self.rows[i].clone());
        }
        proof {
            assert(views_of(out@) =~= spec_list(self@));
        }
        out
    }
}

/// Under unique identifiers, the first index found for `id` is the index the
/// specification's `idx_of` denotes.
proof fn lemma_idx_of_unique(s: Seq<TodoView>, id: u128, i: int)
    requires
        unique_ids(s),
        0 <= i < s.len(),
        s[i].id == id,
    ensures
        contains_id(s, id),
        idx_of(s, id) == i,
{
    assert(contains_id(s, id));
    let k = idx_of(s, id);
    assert(0 <= k < s.len() && s[k].id == id);
    if k < i {
        assert(s[k].id != s[i].id);
    } else if i < k {
        assert(s[i].id != s[k].id);
    }
}

/// Removing a record preserves the store invariant.
proof fn lemma_remove_keeps_wf(s: Seq<TodoView>, i: int)
    requires
        0 <= i < s.len(),
        unique_ids(s),
        time_ordered(s),
    ensures
        unique_ids(s.remove(i)),
        time_ordered(s.remove(i)),
{
    let t = s.remove(i);
    assert forall|p: int, q: int| 0 <= p < q < t.len() implies t[p].id != t[q].id by {
        let p0: int = if p < i {
            p
        } else {
            p + 1
        };
        let q0: int = if q < i {
            q
        } else {
            q + 1
        };
        assert(t[p] == s[p0]);
        assert(t[q] == s[q0]);
    }
    assert forall|p: int, q: int| 0 <= p <= q < t.len() implies t[p].created_at
        <= t[q].created_at by {
        let p0: int = if p < i {
            p
        } else {
            p + 1
        };
        let q0: int = if q < i {
            q
        } else {
            q + 1
        };
        assert(t[p] == s[p0]);
        assert(t[q] == s[q0]);
    }
}

} // verus!
