//! Concrete instances of the store's laws, plus the edge cases of the
//! operations' contracts.

use task_api::api::handle_delete_tasks;
use task_api::api::handle_get_task;
use task_api::api::handle_list;
use task_api::api::handle_patch_task;
use task_api::api::handle_post_tasks;
use task_api::api::ApiStatus;
use task_api::sql::done_to_stored;
use task_api::sql::stored_to_done;
use task_api::store::TaskStore;
use task_api::task::PatchTask;
use task_api::task::PostTask;
use task_api::task::TaskPath;

/// Absent ids always give the no-content signal, never a task.
#[test]
fn get_by_absent_id_is_no_content() {
    let mut store = TaskStore::new();
    for id in [1, 2, 77, u64::MAX] {
        let (task, status) = handle_get_task(&store, &TaskPath { id });
        assert!(task.is_none());
        assert_eq!(status, ApiStatus::NoContent);
    }
    store.create(String::from("only"));
    let (task, status) = handle_get_task(&store, &TaskPath { id: 2 });
    assert!(task.is_none());
    assert_eq!(status, ApiStatus::NoContent);
}

/// Create-then-list round-trip: exactly one new entry, with the given
/// title, done unset, and an id above every earlier one.
#[test]
fn create_then_list_round_trip() {
    let mut store = TaskStore::new();
    store.create(String::from("earlier"));
    let before = handle_list(&store).0.len();
    let max_before = handle_list(&store).0.iter().map(|t| t.id).max().unwrap();

    let id = store.create(String::from("fresh"));

    let (tasks, _) = handle_list(&store);
    assert_eq!(tasks.len(), before + 1);
    let fresh: Vec<_> = tasks.iter().filter(|t| t.title == "fresh").collect();
    assert_eq!(fresh.len(), 1);
    assert_eq!(fresh[0].id, id);
    assert_eq!(fresh[0].done, false);
    assert!(id > max_before);
}

/// Deleting twice reports success both times, and get-by-id stays
/// no-content afterwards; ids are never reused.
#[test]
fn delete_is_idempotent() {
    let mut store = TaskStore::new();
    store.create(String::from("doomed"));
    let path = TaskPath { id: 1 };

    assert_eq!(handle_delete_tasks(&mut store, &path), ApiStatus::Success);
    assert_eq!(handle_delete_tasks(&mut store, &path), ApiStatus::Success);
    let (task, status) = handle_get_task(&store, &path);
    assert!(task.is_none());
    assert_eq!(status, ApiStatus::NoContent);

    // a later create does not reuse the deleted id
    let id = store.create(String::from("later"));
    assert_eq!(id, 2);
}

/// Deleting a never-existing id reports success and changes nothing.
#[test]
fn delete_unknown_id_is_silent_success() {
    let mut store = TaskStore::new();
    store.create(String::from("kept"));
    let status = handle_delete_tasks(&mut store, &TaskPath { id: 42 });
    assert_eq!(status, ApiStatus::Success);
    let (tasks, _) = handle_list(&store);
    assert_eq!(tasks.len(), 1);
    assert_eq!(tasks[0].title, "kept");
}

/// Updating only `done` leaves the title unchanged, and vice versa;
/// updating neither leaves the row unchanged.
#[test]
fn patch_fields_are_independent() {
    let mut store = TaskStore::new();
    store.create(String::from("stable title"));
    let path = TaskPath { id: 1 };

    // done only
    let body = PatchTask { title: None, done: Some(true) };
    assert_eq!(handle_patch_task(&mut store, &path, body), ApiStatus::Success);
    let (task, _) = handle_get_task(&store, &path);
    let task = task.unwrap();
    assert_eq!(task.title, "stable title");
    assert_eq!(task.done, true);

    // title only
    let body = PatchTask { title: Some(String::from("renamed")), done: None };
    assert_eq!(handle_patch_task(&mut store, &path, body), ApiStatus::Success);
    let (task, _) = handle_get_task(&store, &path);
    let task = task.unwrap();
    assert_eq!(task.title, "renamed");
    assert_eq!(task.done, true);

    // neither: the row is unchanged, and it is still a success
    let body = PatchTask { title: None, done: None };
    assert_eq!(handle_patch_task(&mut store, &path, body), ApiStatus::Success);
    let (task, _) = handle_get_task(&store, &path);
    let task = task.unwrap();
    assert_eq!(task.id, 1);
    assert_eq!(task.title, "renamed");
    assert_eq!(task.done, true);
}

/// Patching an unknown id is a silent no-op that still reports success.
#[test]
fn patch_unknown_id_is_silent_success() {
    let mut store = TaskStore::new();
    store.create(String::from("kept"));
    let body = PatchTask { title: Some(String::from("ignored")), done: Some(true) };
    let status = handle_patch_task(&mut store, &TaskPath { id: 9 }, body);
    assert_eq!(status, ApiStatus::Success);
    let (tasks, _) = handle_list(&store);
    assert_eq!(tasks.len(), 1);
    assert_eq!(tasks[0].title, "kept");
    assert_eq!(tasks[0].done, false);
}

/// A task created with `done` unset reads back false; after patching
/// `done = true` it reads back true. The storage integer round-trips.
#[test]
fn done_round_trips() {
    let mut store = TaskStore::new();
    store.create(String::from("flag"));
    let path = TaskPath { id: 1 };
    assert_eq!(handle_get_task(&store, &path).0.unwrap().done, false);

    let body = PatchTask { title: None, done: Some(true) };
    handle_patch_task(&mut store, &path, body);
    assert_eq!(handle_get_task(&store, &path).0.unwrap().done, true);

    assert_eq!(done_to_stored(false), 0);
    assert_eq!(done_to_stored(true), 1);
    assert_eq!(stored_to_done(done_to_stored(false)), false);
    assert_eq!(stored_to_done(done_to_stored(true)), true);
    assert_eq!(stored_to_done(0), false);
    assert_eq!(stored_to_done(5), true);
}

/// The end-to-end scenario over the seeded store.
#[test]
fn end_to_end_scenario() {
    let mut store = TaskStore::new();
    handle_post_tasks(&mut store, PostTask { title: String::from("First Task") });
    handle_post_tasks(&mut store, PostTask { title: String::from("Second Task") });

    let (tasks, status) = handle_list(&store);
    assert_eq!(status.code(), 200);
    assert_eq!(tasks.len(), 2);
    assert_eq!((tasks[0].id, tasks[0].title.as_str(), tasks[0].done), (1, "First Task", false));
    assert_eq!((tasks[1].id, tasks[1].title.as_str(), tasks[1].done), (2, "Second Task", false));

    let (task, status) = handle_get_task(&store, &TaskPath { id: 1 });
    assert_eq!(status.code(), 200);
    let task = task.unwrap();
    assert_eq!((task.id, task.title.as_str(), task.done), (1, "First Task", false));

    assert_eq!(handle_delete_tasks(&mut store, &TaskPath { id: 1 }).code(), 200);

    let (task, status) = handle_get_task(&store, &TaskPath { id: 1 });
    assert!(task.is_none());
    assert_eq!(status.code(), 204);

    let body = PatchTask { title: Some(String::from("X")), done: Some(true) };
    assert_eq!(handle_patch_task(&mut store, &TaskPath { id: 2 }, body).code(), 200);

    let (task, status) = handle_get_task(&store, &TaskPath { id: 2 });
    assert_eq!(status.code(), 200);
    let task = task.unwrap();
    assert_eq!((task.id, task.title.as_str(), task.done), (2, "X", true));
}

/// A create with an empty title is outside the operation's input domain
/// and is rejected with the client-error signal, the store untouched.
#[test]
fn post_empty_title_is_client_error() {
    let mut store = TaskStore::new();
    let status = handle_post_tasks(&mut store, PostTask { title: String::new() });
    assert_eq!(status, ApiStatus::ClientError);
    assert_eq!(handle_list(&store).0.len(), 0);
}

/// An empty store lists an empty sequence with success.
#[test]
fn empty_store_lists_nothing() {
    let store = TaskStore::new();
    let (tasks, status) = handle_list(&store);
    assert!(tasks.is_empty());
    assert_eq!(status, ApiStatus::Success);
}
