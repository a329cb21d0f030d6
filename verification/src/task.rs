//! The data shapes of the task API: the `Task` entity itself and the
//! request bodies / path parameters of the HTTP surface.

use vstd::prelude::*;

verus! {

/// The sole entity of the system: an id assigned by the store, a title,
/// and a completion flag.
pub struct Task {
    pub id: u64,
    pub title: String,
    pub done: bool,
}

/// The mathematical value of a [`Task`]: the title as a sequence of
/// characters, the id as an unbounded natural number.
pub struct TaskV {
    pub id: nat,
    pub title: Seq<char>,
    pub done: bool,
}

impl View for Task {
    type V = TaskV;

    open spec fn view(&self) -> TaskV {
        TaskV { id: self.id as nat, title: self.title@, done: self.done }
    }
}

/// The path parameter of the per-task routes: `/tasks/{id}`.
pub struct TaskPath {
    pub id: u64,
}

/// The request body of the create operation: the initial title.
pub struct PostTask {
    pub title: String,
}

/// The request body of the partial-update operation: two independently
/// optional fields.
pub struct PatchTask {
    pub title: Option<String>,
    pub done: Option<bool>,
}

/// The mathematical value of a [`PatchTask`].
pub struct PatchTaskV {
    pub title: Option<Seq<char>>,
    pub done: Option<bool>,
}

impl View for PatchTask {
    type V = PatchTaskV;

    open spec fn view(&self) -> PatchTaskV {
        PatchTaskV {
            title: match self.title {
                Some(t) => Some(t@),
                None => None,
            },
            done: self.done,
        }
    }
}

} // verus!
