//! The task store: a single-table relational store of [`Task`] rows,
//! keyed by an auto-assigned, never-reused id, kept in insertion order.
//!
//! The mathematical model of a store is [`StoreV`]: the sequence of task
//! values in insertion order, plus the next id the store will assign.
//! Every operation's contract is stated as a transition on that model
//! ([`spec_create`], [`spec_delete`], [`spec_patch`], [`spec_find`]).

use vstd::prelude::*;
use vstd::pervasive::VecAdditionalExecFns;

use crate::task::PatchTask;
use crate::task::PatchTaskV;
use crate::task::Task;
use crate::task::TaskV;

verus! {

/// The mathematical value of a [`TaskStore`].
pub struct StoreV {
    /// The stored rows, in insertion order.
    pub tasks: Seq<TaskV>,
    /// The id the store will assign to the next created task; strictly
    /// greater than every id it ever assigned before.
    pub next_id: nat,
}

/// The rows of a task vector, as mathematical values, in order.
pub open spec fn tasks_view(ts: Seq<Task>) -> Seq<TaskV> {
    ts.map_values(|t: Task| t@)
}

/// Well-formedness of a store value: ids are assigned in strictly
/// increasing order (hence unique), and all of them are below `next_id`,
/// so a fresh id can never collide with, or reuse, an old one.
pub open spec fn store_wf(s: StoreV) -> bool {
    &&& 1 <= s.next_id
    &&& forall|i: int| 0 <= i < s.tasks.len() ==> #[trigger] s.tasks[i].id < s.next_id
    &&& forall|i: int, j: int|
        0 <= i < j < s.tasks.len() ==> #[trigger] s.tasks[i].id < #[trigger] s.tasks[j].id
}

/// Whether some row carries the given id.
pub open spec fn spec_contains(tasks: Seq<TaskV>, id: nat) -> bool {
    exists|i: int| 0 <= i < tasks.len() && tasks[i].id == id
}

/// The first row carrying the given id, if any. Under [`store_wf`] ids
/// are unique, so "first" is the only one.
pub open spec fn spec_find(tasks: Seq<TaskV>, id: nat) -> Option<TaskV>
    decreases tasks.len(),
{
    if tasks.len() == 0 {
        None
    } else if tasks[0].id == id {
        Some(tasks[0])
    } else {
        spec_find(tasks.skip(1), id)
    }
}

/// The rows with the first row carrying the given id removed: at most
/// one row is deleted, and a miss leaves the sequence unchanged.
pub open spec fn spec_remove(tasks: Seq<TaskV>, id: nat) -> Seq<TaskV>
    decreases tasks.len(),
{
    if tasks.len() == 0 {
        tasks
    } else if tasks[0].id == id {
        tasks.skip(1)
    } else {
        seq![tasks[0]] + spec_remove(tasks.skip(1), id)
    }
}

/// The store after a create: one new row appended, carrying the next id,
/// the given title, and `done = false`; the next id moves past it.
pub open spec fn spec_create(s: StoreV, title: Seq<char>) -> StoreV {
    StoreV {
        tasks: s.tasks.push(TaskV { id: s.next_id, title, done: false }),
        next_id: s.next_id + 1,
    }
}

/// The store after a delete of the given id (a silent no-op on a miss).
pub open spec fn spec_delete(s: StoreV, id: nat) -> StoreV {
    StoreV { tasks: spec_remove(s.tasks, id), next_id: s.next_id }
}

/// The four-way presence matrix of a partial update, built once from the
/// parsed request body and then dispatched with a single exhaustive
/// match: both fields, title only, done only, or neither.
pub enum PatchChoice {
    UpdateBoth(String, bool),
    UpdateTitleOnly(String),
    UpdateDoneOnly(bool),
    NoOp,
}

/// The mathematical value of a [`PatchChoice`].
pub enum PatchV {
    UpdateBoth(Seq<char>, bool),
    UpdateTitleOnly(Seq<char>),
    UpdateDoneOnly(bool),
    NoOp,
}

impl View for PatchChoice {
    type V = PatchV;

    open spec fn view(&self) -> PatchV {
        match self {
            PatchChoice::UpdateBoth(title, done) => PatchV::UpdateBoth(title@, *done),
            PatchChoice::UpdateTitleOnly(title) => PatchV::UpdateTitleOnly(title@),
            PatchChoice::UpdateDoneOnly(done) => PatchV::UpdateDoneOnly(*done),
            PatchChoice::NoOp => PatchV::NoOp,
        }
    }
}

/// Which choice a partial-update body denotes: each field takes effect
/// exactly when it is present.
pub open spec fn spec_choice_of(p: PatchTaskV) -> PatchV {
    match (p.title, p.done) {
        (Some(title), Some(done)) => PatchV::UpdateBoth(title, done),
        (Some(title), None) => PatchV::UpdateTitleOnly(title),
        (None, Some(done)) => PatchV::UpdateDoneOnly(done),
        (None, None) => PatchV::NoOp,
    }
}

/// One row after a partial update: only the fields the choice carries
/// change; the id never does.
pub open spec fn spec_patched(t: TaskV, c: PatchV) -> TaskV {
    match c {
        PatchV::UpdateBoth(title, done) => TaskV { id: t.id, title, done },
        PatchV::UpdateTitleOnly(title) => TaskV { id: t.id, title, done: t.done },
        PatchV::UpdateDoneOnly(done) => TaskV { id: t.id, title: t.title, done },
        PatchV::NoOp => t,
    }
}

/// The rows after a partial update of the given id: rows carrying the id
/// are patched (under [`store_wf`] that is at most one), all others are
/// untouched; a miss leaves every row unchanged.
pub open spec fn spec_update(tasks: Seq<TaskV>, id: nat, c: PatchV) -> Seq<TaskV> {
    tasks.map_values(|t: TaskV| if t.id == id { spec_patched(t, c) } else { t })
}

/// The store after a partial update (a silent no-op on a miss).
pub open spec fn spec_patch(s: StoreV, id: nat, c: PatchV) -> StoreV {
    StoreV { tasks: spec_update(s.tasks, id, c), next_id: s.next_id }
}

/// Builds the tagged update choice from a parsed partial-update body.
pub fn choice_of_patch(p: PatchTask) -> (c: PatchChoice)
    ensures
        c@ == spec_choice_of(p@),
{
    match (p.title, p.done) {
        (Some(title), Some(done)) => PatchChoice::UpdateBoth(title, done),
        (Some(title), None) => PatchChoice::UpdateTitleOnly(title),
        (None, Some(done)) => PatchChoice::UpdateDoneOnly(done),
        (None, None) => PatchChoice::NoOp,
    }
}

/// The task store. Rows live in a vector in insertion order; `next_id`
/// plays the part of the autoincrement counter of the backing table.
pub struct TaskStore {
    tasks: Vec<Task>,
    next_id: u64,
}

impl View for TaskStore {
    type V = StoreV;

    closed spec fn view(&self) -> StoreV {
        StoreV { tasks: tasks_view(self.tasks@), next_id: self.next_id as nat }
    }
}

/// If no row up to (excluding) index `i` carries `id`, the search result
/// on the whole sequence is the search result from `i` on.
pub(crate) proof fn lemma_find_from(tasks: Seq<TaskV>, id: nat, i: int)
    requires
        0 <= i <= tasks.len(),
        forall|k: int| 0 <= k < i ==> #[trigger] tasks[k].id != id,
    ensures
        spec_find(tasks, id) == spec_find(tasks.skip(i), id),
    decreases i,
{
    if i > 0 {
        lemma_find_from(tasks.skip(1), id, i - 1);
        assert(tasks.skip(1).skip(i - 1) =~= tasks.skip(i));
    } else {
        assert(tasks.skip(0) =~= tasks);
    }
}

/// If the first row carrying `id` stands at index `i`, removing by id
/// is removing exactly that index.
pub(crate) proof fn lemma_remove_at(tasks: Seq<TaskV>, id: nat, i: int)
    requires
        0 <= i < tasks.len(),
        tasks[i].id == id,
        forall|k: int| 0 <= k < i ==> #[trigger] tasks[k].id != id,
    ensures
        spec_remove(tasks, id) == tasks.remove(i),
    decreases i,
{
    if i == 0 {
        assert(spec_remove(tasks, id) =~= tasks.remove(0));
    } else {
        lemma_remove_at(tasks.skip(1), id, i - 1);
        assert(seq![tasks[0]] + tasks.skip(1).remove(i - 1) =~= tasks.remove(i));
    }
}

/// If no row carries `id`, removing by id leaves the rows unchanged.
pub(crate) proof fn lemma_remove_absent(tasks: Seq<TaskV>, id: nat)
    requires
        forall|k: int| 0 <= k < tasks.len() ==> #[trigger] tasks[k].id != id,
    ensures
        spec_remove(tasks, id) == tasks,
    decreases tasks.len(),
{
    if tasks.len() == 0 {
        assert(spec_remove(tasks, id) =~= tasks);
    } else {
        lemma_remove_absent(tasks.skip(1), id);
        assert(seq![tasks[0]] + tasks.skip(1) =~= tasks);
    }
}

impl TaskStore {
    /// Well-formedness of the store: see [`store_wf`].
    pub open spec fn wf(&self) -> bool {
        store_wf(self@)
    }

    /// A fresh, empty store; the first task created in it gets id 1.
    pub fn new() -> (s: TaskStore)
        ensures
            s@.tasks.len() == 0,
            s@.next_id == 1,
            s.wf(),
    {
        TaskStore { tasks: Vec::new(), next_id: 1 }
    }

    /// Whether the store can still assign a fresh id.
    pub fn has_capacity(&self) -> (b: bool)
        ensures
            b == (self@.next_id < u64::MAX),
    {
        self.next_id < u64::MAX
    }

    /// The index of the first row carrying `id`, if any.
    fn index_of(&self, id: u64) -> (r: Option<usize>)
        ensures
            match r {
                Some(i) => 0 <= i < self@.tasks.len() && self@.tasks[i as int].id == id as nat
                    && (forall|k: int| 0 <= k < i ==> #[trigger] self@.tasks[k].id != id as nat),
                None => forall|k: int|
                    0 <= k < self@.tasks.len() ==> #[trigger] self@.tasks[k].id != id as nat,
            },
    {
        let n = self.tasks.len();
        let mut i: usize = 0;
        while i < n
            invariant
                0 <= i <= n,
                n == self@.tasks.len(),
                forall|k: int| 0 <= k < i ==> #[trigger] self@.tasks[k].id != id as nat,
            decreases n - i,
        {
            if self.tasks[i].id == id {
                return Some(i);
            }
            i = i + 1;
        }
        None
    }

    /// List: every stored row, in insertion order; never fails.
    pub fn list_tasks(&self) -> (r: &Vec<Task>)
        ensures
            tasks_view(r@) == self@.tasks,
    {
        &self.tasks
    }

    /// Get-by-id: the matching row if one exists, and nothing — the
    /// "no content" signal — otherwise, never an error.
    pub fn get_task(&self, id: u64) -> (r: Option<&Task>)
        ensures
            match r {
                Some(t) => spec_find(self@.tasks, id as nat) == Some(t@),
                None => spec_find(self@.tasks, id as nat) is None,
            },
    {
        match self.index_of(id) {
            Some(i) => {
                proof {
                    lemma_find_from(self@.tasks, id as nat, i as int);
                    assert(self@.tasks.skip(i as int)[0] == self@.tasks[i as int]);
                }
                Some(&self.tasks[i])
            },
            None => {
                proof {
                    lemma_find_from(self@.tasks, id as nat, self@.tasks.len() as int);
                    assert(self@.tasks.skip(self@.tasks.len() as int) =~= Seq::<TaskV>::empty());
                }
                None
            },
        }
    }

    /// Create: appends one row with the next free id, the given title,
    /// and `done = false`, and returns the assigned id.
    pub fn create(&mut self, title: String) -> (id: u64)
        requires
            old(self).wf(),
            title@.len() > 0,
            old(self)@.next_id < u64::MAX,
        ensures
            final(self)@ == spec_create(old(self)@, title@),
            id as nat == old(self)@.next_id,
            final(self).wf(),
    {
        let ghost old_view = self@;
        let ghost title_view = title@;
        let id = self.next_id;
        self.tasks.push(Task { id, title, done: false });
        self.next_id = id + 1;
        proof {
            let created = TaskV { id: id as nat, title: title_view, done: false };
            assert(tasks_view(self.tasks@) =~= old_view.tasks.push(created));
            assert(self@ == spec_create(old_view, title_view));
            assert forall|a: int, b: int|
                0 <= a < b < self@.tasks.len() implies #[trigger] self@.tasks[a].id
                < #[trigger] self@.tasks[b].id by {
                if b < old_view.tasks.len() {
                    assert(old_view.tasks[a].id < old_view.tasks[b].id);
                } else {
                    assert(old_view.tasks[a].id < old_view.next_id);
                }
            };
        }
        id
    }

    /// Delete: removes the row carrying `id` if one exists; a miss is a
    /// silent no-op (the store reports success either way).
    pub fn delete_task(&mut self, id: u64)
        requires
            old(self).wf(),
        ensures
            final(self)@ == spec_delete(old(self)@, id as nat),
            final(self).wf(),
    {
        let ghost old_view = self@;
        match self.index_of(id) {
            Some(i) => {
                self.tasks.remove(i);
                proof {
                    lemma_remove_at(old_view.tasks, id as nat, i as int);
                    assert(tasks_view(self.tasks@) =~= old_view.tasks.remove(i as int));
                    assert(self@ == spec_delete(old_view, id as nat));
                    assert forall|a: int, b: int|
                        0 <= a < b < self@.tasks.len() implies #[trigger] self@.tasks[a].id
                        < #[trigger] self@.tasks[b].id by {
                        let wa: int = if a < i { a } else { a + 1 };
                        let wb: int = if b < i { b } else { b + 1 };
                        assert(self@.tasks[a] == old_view.tasks[wa]);
                        assert(self@.tasks[b] == old_view.tasks[wb]);
                        assert(old_view.tasks[wa].id < old_view.tasks[wb].id);
                    };
                    assert forall|a: int|
                        0 <= a < self@.tasks.len() implies #[trigger] self@.tasks[a].id
                        < self@.next_id by {
                        let wa: int = if a < i { a } else { a + 1 };
                        assert(self@.tasks[a] == old_view.tasks[wa]);
                    };
                }
            },
            None => {
                proof {
                    lemma_remove_absent(old_view.tasks, id as nat);
                    assert(self@ == spec_delete(old_view, id as nat));
                }
            },
        }
    }

    /// Partial update: dispatches the tagged choice on the row carrying
    /// `id`, changing only the fields the choice carries; a miss — and
    /// the no-op choice — leaves every row unchanged.
    pub fn apply_patch(&mut self, id: u64, c: &PatchChoice)
        requires
            old(self).wf(),
        ensures
            final(self)@ == spec_patch(old(self)@, id as nat, c@),
            final(self).wf(),
    {
        let ghost old_view = self@;
        match self.index_of(id) {
            None => {
                proof {
                    assert(spec_update(old_view.tasks, id as nat, c@) =~= old_view.tasks);
                    assert(self@ == spec_patch(old_view, id as nat, c@));
                }
            },
            Some(i) => {
                let cur = &self.tasks[i];
                let replacement: Task = match c {
                    PatchChoice::UpdateBoth(title, done) => Task {
                        id: cur.id,
                        title: title.clone(),
                        done: *done,
                    },
                    PatchChoice::UpdateTitleOnly(title) => Task {
                        id: cur.id,
                        title: title.clone(),
                        done: cur.done,
                    },
                    PatchChoice::UpdateDoneOnly(done) => Task {
                        id: cur.id,
                        title: cur.title.clone(),
                        done: *done,
                    },
                    PatchChoice::NoOp => Task { id: cur.id, title: cur.title.clone(), done: cur.done },
                };
                proof {
                    assert(replacement@ == spec_patched(old_view.tasks[i as int], c@));
                }
                self.tasks.set(i, replacement);
                proof {
                    assert forall|k: int|
                        0 <= k < old_view.tasks.len() && k != i implies #[trigger] old_view.tasks[k].id
                        != id as nat by {
                        if k < i {
                            assert(old_view.tasks[k].id < old_view.tasks[i as int].id);
                        } else {
                            assert(old_view.tasks[i as int].id < old_view.tasks[k].id);
                        }
                    };
                    assert(tasks_view(self.tasks@) =~= spec_update(old_view.tasks, id as nat, c@));
                    assert(self@ == spec_patch(old_view, id as nat, c@));
                    assert forall|a: int, b: int|
                        0 <= a < b < self@.tasks.len() implies #[trigger] self@.tasks[a].id
                        < #[trigger] self@.tasks[b].id by {
                        assert(self@.tasks[a].id == old_view.tasks[a].id);
                        assert(self@.tasks[b].id == old_view.tasks[b].id);
                    };
                    assert forall|a: int|
                        0 <= a < self@.tasks.len() implies #[trigger] self@.tasks[a].id
                        < self@.next_id by {
                        assert(self@.tasks[a].id == old_view.tasks[a].id);
                    };
                }
            },
        }
    }

    /// Partial update from a parsed request body: builds the tagged
    /// choice once, then applies it.
    pub fn patch_task(&mut self, id: u64, p: PatchTask)
        requires
            old(self).wf(),
        ensures
            final(self)@ == spec_patch(old(self)@, id as nat, spec_choice_of(p@)),
            final(self).wf(),
    {
        let c = choice_of_patch(p);
        self.apply_patch(id, &c);
    }
}

} // verus!
