//! The library-wide laws of the task store, stated over the
//! mathematical model and proved once and for all: what a reader should
//! be able to rely on across operations, not just within one contract.

use vstd::prelude::*;

use crate::sql::spec_done_of_stored;
use crate::sql::spec_stored_of_done;
use crate::store::lemma_find_from;
use crate::store::lemma_remove_absent;
use crate::store::lemma_remove_at;
use crate::store::spec_contains;
use crate::store::spec_create;
use crate::store::spec_delete;
use crate::store::spec_find;
use crate::store::spec_patch;
use crate::store::spec_update;
use crate::store::store_wf;
use crate::store::PatchV;
use crate::store::StoreV;
use crate::task::TaskV;

verus! {

/// For every id no row carries, get-by-id finds nothing — the
/// no-content signal — never a task.
pub proof fn lemma_get_absent(tasks: Seq<TaskV>, id: nat)
    requires
        !spec_contains(tasks, id),
    ensures
        spec_find(tasks, id) is None,
    decreases tasks.len(),
{
    if tasks.len() > 0 {
        assert(tasks[0].id != id);
        if spec_contains(tasks.skip(1), id) {
            let k = choose|k: int| 0 <= k < tasks.skip(1).len() && tasks.skip(1)[k].id == id;
            assert(tasks[k + 1].id == id);
            assert(false);
        }
        lemma_get_absent(tasks.skip(1), id);
    }
}

/// If the first row carrying `id` stands at index `i`, get-by-id finds
/// exactly that row.
pub proof fn lemma_find_at(tasks: Seq<TaskV>, id: nat, i: int)
    requires
        0 <= i < tasks.len(),
        tasks[i].id == id,
        forall|k: int| 0 <= k < i ==> #[trigger] tasks[k].id != id,
    ensures
        spec_find(tasks, id) == Some(tasks[i]),
{
    lemma_find_from(tasks, id, i);
    assert(tasks.skip(i)[0] == tasks[i]);
}

/// Round-trip of create and list: listing after a create shows every
/// previous row unchanged, plus exactly one new entry at the end,
/// carrying the given title, `done = false`, and an id strictly greater
/// than every previously assigned id.
pub proof fn lemma_create_round_trip(s: StoreV, title: Seq<char>)
    requires
        store_wf(s),
        title.len() > 0,
    ensures
        ({
            let s2 = spec_create(s, title);
            &&& s2.tasks.len() == s.tasks.len() + 1
            &&& forall|i: int| 0 <= i < s.tasks.len() ==> s2.tasks[i] == s.tasks[i]
            &&& s2.tasks.last().title == title
            &&& s2.tasks.last().done == false
            &&& forall|i: int|
                0 <= i < s.tasks.len() ==> #[trigger] s.tasks[i].id < s2.tasks.last().id
            &&& store_wf(s2)
        }),
{
    let s2 = spec_create(s, title);
    assert forall|a: int, b: int|
        0 <= a < b < s2.tasks.len() implies #[trigger] s2.tasks[a].id
        < #[trigger] s2.tasks[b].id by {
        if b < s.tasks.len() {
            assert(s.tasks[a].id < s.tasks[b].id);
        } else {
            assert(s.tasks[a].id < s.next_id);
        }
    };
}

/// After a delete of an id, no row carries it; the store stays
/// well-formed.
pub proof fn lemma_delete_removes(s: StoreV, id: nat)
    requires
        store_wf(s),
    ensures
        store_wf(spec_delete(s, id)),
        !spec_contains(spec_delete(s, id).tasks, id),
{
    if spec_contains(s.tasks, id) {
        let i = choose|i: int| 0 <= i < s.tasks.len() && s.tasks[i].id == id;
        assert forall|k: int| 0 <= k < i implies #[trigger] s.tasks[k].id != id by {
            assert(s.tasks[k].id < s.tasks[i].id);
        };
        lemma_remove_at(s.tasks, id, i);
        let r = s.tasks.remove(i);
        assert forall|k: int| 0 <= k < r.len() implies #[trigger] r[k].id != id by {
            let w: int = if k < i { k } else { k + 1 };
            assert(r[k] == s.tasks[w]);
            if w < i {
                assert(s.tasks[w].id < s.tasks[i].id);
            } else {
                assert(s.tasks[i].id < s.tasks[w].id);
            }
        };
        assert forall|a: int, b: int|
            0 <= a < b < r.len() implies #[trigger] r[a].id < #[trigger] r[b].id by {
            let wa: int = if a < i { a } else { a + 1 };
            let wb: int = if b < i { b } else { b + 1 };
            assert(r[a] == s.tasks[wa]);
            assert(r[b] == s.tasks[wb]);
            assert(s.tasks[wa].id < s.tasks[wb].id);
        };
        assert forall|a: int| 0 <= a < r.len() implies #[trigger] r[a].id < s.next_id by {
            let wa: int = if a < i { a } else { a + 1 };
            assert(r[a] == s.tasks[wa]);
        };
        if spec_contains(r, id) {
            let k = choose|k: int| 0 <= k < r.len() && r[k].id == id;
            assert(false);
        }
    } else {
        assert forall|k: int| 0 <= k < s.tasks.len() implies #[trigger] s.tasks[k].id != id by {
            if s.tasks[k].id == id {
                assert(spec_contains(s.tasks, id));
            }
        };
        lemma_remove_absent(s.tasks, id);
    }
}

/// Idempotence of delete: deleting an id a second time changes nothing
/// further, and a get-by-id after any delete of that id finds nothing.
pub proof fn lemma_delete_idempotent(s: StoreV, id: nat)
    requires
        store_wf(s),
    ensures
        spec_delete(spec_delete(s, id), id) == spec_delete(s, id),
        spec_find(spec_delete(s, id).tasks, id) is None,
        store_wf(spec_delete(s, id)),
{
    lemma_delete_removes(s, id);
    let s1 = spec_delete(s, id);
    lemma_get_absent(s1.tasks, id);
    assert forall|k: int| 0 <= k < s1.tasks.len() implies #[trigger] s1.tasks[k].id != id by {
        if s1.tasks[k].id == id {
            assert(spec_contains(s1.tasks, id));
        }
    };
    lemma_remove_absent(s1.tasks, id);
    assert(spec_delete(s1, id) == s1);
}

/// Partial-update independence: updating only `done` leaves every title
/// unchanged, updating only `title` leaves every flag unchanged, and
/// updating neither leaves every row exactly unchanged; no update ever
/// changes an id or the number of rows.
pub proof fn lemma_patch_independence(tasks: Seq<TaskV>, id: nat, title: Seq<char>, done: bool)
    ensures
        ({
            let u = spec_update(tasks, id, PatchV::UpdateDoneOnly(done));
            &&& u.len() == tasks.len()
            &&& forall|i: int|
                0 <= i < tasks.len() ==> (#[trigger] u[i]).title == tasks[i].title && u[i].id
                    == tasks[i].id
        }),
        ({
            let u = spec_update(tasks, id, PatchV::UpdateTitleOnly(title));
            &&& u.len() == tasks.len()
            &&& forall|i: int|
                0 <= i < tasks.len() ==> (#[trigger] u[i]).done == tasks[i].done && u[i].id
                    == tasks[i].id
        }),
        spec_update(tasks, id, PatchV::NoOp) == tasks,
{
    assert(spec_update(tasks, id, PatchV::NoOp) =~= tasks);
}

/// Boolean round-trip in the store: a task created with `done` unset
/// reads back as `done == false`; after patching `done = true` it reads
/// back as `true`, its title untouched.
pub proof fn lemma_done_round_trip(s: StoreV, title: Seq<char>)
    requires
        store_wf(s),
        title.len() > 0,
    ensures
        ({
            let s2 = spec_create(s, title);
            let id = s.next_id;
            &&& spec_find(s2.tasks, id) == Some(
                TaskV { id, title, done: false },
            )
            &&& spec_find(
                spec_patch(s2, id, PatchV::UpdateDoneOnly(true)).tasks,
                id,
            ) == Some(TaskV { id, title, done: true })
        }),
{
    let s2 = spec_create(s, title);
    let id = s.next_id;
    let n: int = s.tasks.len() as int;
    assert forall|k: int| 0 <= k < n implies #[trigger] s2.tasks[k].id != id by {
        assert(s.tasks[k].id < s.next_id);
    };
    assert(s2.tasks[n] == TaskV { id, title, done: false });
    lemma_find_at(s2.tasks, id, n);
    let s3 = spec_patch(s2, id, PatchV::UpdateDoneOnly(true));
    assert forall|k: int| 0 <= k < n implies #[trigger] s3.tasks[k].id != id by {
        assert(s3.tasks[k].id == s2.tasks[k].id);
    };
    assert(s3.tasks[n] == TaskV { id, title, done: true });
    lemma_find_at(s3.tasks, id, n);
}

/// Boolean round-trip at the storage boundary: a flag written as its
/// stored integer reads back as the same flag.
pub proof fn lemma_stored_done_round_trip(done: bool)
    ensures
        spec_done_of_stored(spec_stored_of_done(done)) == done,
{
}

} // verus!
