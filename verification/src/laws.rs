//! The service's laws, each proved once and for all over the store
//! semantics: round-trip of creation, listing order, preservation of omitted
//! fields under partial update, not-found as a first-class outcome, and
//! idempotence of deletion.

use crate::store::contains_id;
use crate::store::idx_of;
use crate::store::spec_create;
use crate::store::spec_delete;
use crate::store::spec_get;
use crate::store::spec_list;
use crate::store::spec_update;
use crate::store::time_ordered;
use crate::store::unique_ids;
use crate::todo::spec_merge;
use crate::todo::TodoView;
use crate::todo::UpdateView;
use vstd::prelude::*;

verus! {

/// Law: creating a record and looking its identifier up returns exactly the
/// record that was created — same identifier, same title, a false completed
/// flag, and the creation timestamp the server assigned.
pub proof fn lemma_create_then_get(s: Seq<TodoView>, title: Seq<char>, id: u128, created_at: i64)
    requires
        !contains_id(s, id),
    ensures
        spec_get(spec_create(s, title, id, created_at), id) == Some(
            TodoView { id, title, completed: false, created_at },
        ),
{
    let s2 = spec_create(s, title, id, created_at);
    let n = s.len() as int;
    assert(s2[n].id == id);
    assert(contains_id(s2, id));
    let k = idx_of(s2, id);
    assert(0 <= k < s2.len() && s2[k].id == id);
    if k < n {
        assert(s2[k] == s[k]);
        assert(contains_id(s, id));
    }
}

/// Law: records created later stand earlier in the listing — after creating
/// three records in order, the listing begins with the third, the second and
/// the first.
pub proof fn lemma_list_newest_first(s: Seq<TodoView>, r1: TodoView, r2: TodoView, r3: TodoView)
    ensures
        ({
            let l = spec_list(s.push(r1).push(r2).push(r3));
            l.len() == s.len() + 3 && l[0] == r3 && l[1] == r2 && l[2] == r1
        }),
{
}

/// Law: when creation timestamps never decrease along insertion order, the
/// listing is ordered by creation time descending.
pub proof fn lemma_list_time_descending(s: Seq<TodoView>)
    requires
        time_ordered(s),
    ensures
        forall|i: int, j: int|
            0 <= i <= j < spec_list(s).len() ==> spec_list(s)[i].created_at
                >= spec_list(s)[j].created_at,
{
    let n = s.len() as int;
    assert forall|i: int, j: int| 0 <= i <= j < spec_list(s).len() implies spec_list(
        s,
    )[i].created_at >= spec_list(s)[j].created_at by {
        assert(spec_list(s)[i] == s[n - 1 - i]);
        assert(spec_list(s)[j] == s[n - 1 - j]);
        assert(s[n - 1 - j].created_at <= s[n - 1 - i].created_at);
    }
}

/// Law: a partial update replaces exactly the supplied fields; an omitted
/// field is carried over unchanged, and identifier and creation timestamp
/// are immutable.
pub proof fn lemma_merge_preserves_omitted(cur: TodoView, upd: UpdateView)
    ensures
        spec_merge(cur, upd).id == cur.id,
        spec_merge(cur, upd).created_at == cur.created_at,
        upd.title is None ==> spec_merge(cur, upd).title == cur.title,
        upd.completed is None ==> spec_merge(cur, upd).completed == cur.completed,
        upd.title matches Some(t) ==> spec_merge(cur, upd).title == t,
        upd.completed matches Some(c) ==> spec_merge(cur, upd).completed == c,
{
}

/// Law: updating a present record merges the supplied fields over it, is
/// visible to a subsequent lookup, and leaves every other record untouched.
pub proof fn lemma_update_found(s: Seq<TodoView>, id: u128, upd: UpdateView)
    requires
        unique_ids(s),
        contains_id(s, id),
    ensures
        ({
            let i = idx_of(s, id);
            let s2 = spec_update(s, id, upd);
            0 <= i < s.len() && s[i].id == id && s2 == s.update(i, spec_merge(s[i], upd))
                && spec_get(s2, id) == Some(spec_merge(s[i], upd)) && (forall|j: int|
                0 <= j < s.len() && j != i ==> s2[j] == s[j])
        }),
{
    let i = idx_of(s, id);
    assert(0 <= i < s.len() && s[i].id == id);
    let s2 = spec_update(s, id, upd);
    assert(s2[i].id == id);
    assert(contains_id(s2, id));
    let k = idx_of(s2, id);
    assert(0 <= k < s2.len() && s2[k].id == id);
    if k != i {
        assert(s2[k] == s[k]);
        assert(s[k].id != s[i].id);
    }
}

/// Law: a never-assigned identifier is a not-found outcome everywhere — the
/// lookup yields nothing, and neither update nor deletion changes the
/// collection.
pub proof fn lemma_unused_id_not_found(s: Seq<TodoView>, id: u128, upd: UpdateView)
    requires
        !contains_id(s, id),
    ensures
        spec_get(s, id) is None,
        spec_update(s, id, upd) == s,
        spec_delete(s, id) == s,
{
}

/// Law: deletion is idempotent — deleting the same identifier a second time
/// (or a never-assigned one the first time) changes nothing.
pub proof fn lemma_delete_idempotent(s: Seq<TodoView>, id: u128)
    requires
        unique_ids(s),
    ensures
        spec_delete(spec_delete(s, id), id) == spec_delete(s, id),
{
    if contains_id(s, id) {
        let i = idx_of(s, id);
        assert(0 <= i < s.len() && s[i].id == id);
        let d = s.remove(i);
        s.remove_ensures(i);
        assert forall|j: int| 0 <= j < d.len() implies d[j].id != id by {
            if j < i {
                assert(d[j] == s[j]);
                assert(s[j].id != s[i].id);
            } else {
                assert(d[j] == s[j + 1]);
                assert(s[i].id != s[j + 1].id);
            }
        }
        assert(!contains_id(d, id));
        assert(spec_delete(s, id) == d);
        assert(spec_delete(d, id) == d);
    }
}

} // verus!
