//! The handler layer of the HTTP surface: one function per route, each
//! performing exactly one store operation and mapping its outcome to a
//! response, plus the cross-cutting status mapping (success /
//! no-content / client-error).

use vstd::prelude::*;

use crate::store::spec_choice_of;
use crate::store::spec_create;
use crate::store::spec_delete;
use crate::store::spec_find;
use crate::store::spec_patch;
use crate::store::tasks_view;
use crate::store::TaskStore;
use crate::task::PatchTask;
use crate::task::PostTask;
use crate::task::Task;
use crate::task::TaskPath;

verus! {

/// The three response classes of the API. Error bodies carry free text;
/// only the class is part of the contract.
#[derive(Clone, Copy, PartialEq, Eq, Structural, Debug)]
pub enum ApiStatus {
    Success,
    NoContent,
    ClientError,
}

impl ApiStatus {
    /// The HTTP status code of each response class.
    pub open spec fn spec_code(self) -> u16 {
        match self {
            ApiStatus::Success => 200,
            ApiStatus::NoContent => 204,
            ApiStatus::ClientError => 400,
        }
    }

    /// The HTTP status code of this response class: 200, 204 or 400.
    pub fn code(&self) -> (c: u16)
        ensures
            c == self.spec_code(),
    {
        match self {
            ApiStatus::Success => 200,
            ApiStatus::NoContent => 204,
            ApiStatus::ClientError => 400,
        }
    }
}

/// What executing a single-row read against a backing store yielded:
/// a row, no row, or a statement failure with its diagnostic text.
pub enum FetchOutcome {
    Row(Task),
    NoRow,
    Failure(String),
}

/// Response class of a get-by-id outcome: a missing row is the
/// no-content signal, never conflated with a statement failure.
pub fn fetch_status(o: &FetchOutcome) -> (s: ApiStatus)
    ensures
        o matches FetchOutcome::Row(_) ==> s == ApiStatus::Success,
        o matches FetchOutcome::NoRow ==> s == ApiStatus::NoContent,
        o matches FetchOutcome::Failure(_) ==> s == ApiStatus::ClientError,
{
    match o {
        FetchOutcome::Row(_) => ApiStatus::Success,
        FetchOutcome::NoRow => ApiStatus::NoContent,
        FetchOutcome::Failure(_) => ApiStatus::ClientError,
    }
}

/// Response class of a mutation (create, update, delete) or of a list
/// read: success if the statement went through, client-error otherwise.
pub fn mutation_status(succeeded: bool) -> (s: ApiStatus)
    ensures
        s == (if succeeded {
            ApiStatus::Success
        } else {
            ApiStatus::ClientError
        }),
{
    if succeeded {
        ApiStatus::Success
    } else {
        ApiStatus::ClientError
    }
}

/// List route: every stored task in insertion order, with success.
pub fn handle_list(store: &TaskStore) -> (r: (&Vec<Task>, ApiStatus))
    ensures
        tasks_view(r.0@) == store@.tasks,
        r.1 == ApiStatus::Success,
{
    (store.list_tasks(), ApiStatus::Success)
}

/// Get-by-id route: the matching task with success, or no task with the
/// no-content signal.
pub fn handle_get_task<'a>(store: &'a TaskStore, path: &TaskPath) -> (r: (
    Option<&'a Task>,
    ApiStatus,
))
    ensures
        r.0 matches Some(t) ==> spec_find(store@.tasks, path.id as nat) == Some(t@)
            && r.1 == ApiStatus::Success,
        r.0 is None ==> spec_find(store@.tasks, path.id as nat) is None
            && r.1 == ApiStatus::NoContent,
{
    match store.get_task(path.id) {
        Some(t) => (Some(t), ApiStatus::Success),
        None => (None, ApiStatus::NoContent),
    }
}

/// Create route: inserts one task with the given title and `done =
/// false`, and reports success. A body outside the operation's input
/// domain (an empty title), or a store that has run out of ids, is
/// rejected with the client-error signal and leaves the store unchanged.
pub fn handle_post_tasks(store: &mut TaskStore, body: PostTask) -> (s: ApiStatus)
    requires
        old(store).wf(),
    ensures
        body.title@.len() > 0 && old(store)@.next_id < u64::MAX ==> final(store)@ == spec_create(
            old(store)@,
            body.title@,
        ) && s == ApiStatus::Success,
        !(body.title@.len() > 0 && old(store)@.next_id < u64::MAX) ==> final(store)@ == old(store)@
            && s == ApiStatus::ClientError,
        final(store).wf(),
{
    if body.title.as_str().unicode_len() > 0 && store.has_capacity() {
        store.create(body.title);
        ApiStatus::Success
    } else {
        ApiStatus::ClientError
    }
}

/// Partial-update route: applies the request's present fields to the
/// matching task; an unknown id is a silent no-op. Reports success in
/// both cases.
pub fn handle_patch_task(store: &mut TaskStore, path: &TaskPath, body: PatchTask) -> (s: ApiStatus)
    requires
        old(store).wf(),
    ensures
        final(store)@ == spec_patch(old(store)@, path.id as nat, spec_choice_of(body@)),
        s == ApiStatus::Success,
        final(store).wf(),
{
    store.patch_task(path.id, body);
    ApiStatus::Success
}

/// Delete route: removes the matching task; an unknown id is a silent
/// no-op. Reports success in both cases.
pub fn handle_delete_tasks(store: &mut TaskStore, path: &TaskPath) -> (s: ApiStatus)
    requires
        old(store).wf(),
    ensures
        final(store)@ == spec_delete(old(store)@, path.id as nat),
        s == ApiStatus::Success,
        final(store).wf(),
{
    store.delete_task(path.id);
    ApiStatus::Success
}

} // verus!
