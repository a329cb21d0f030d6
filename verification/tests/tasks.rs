//! The route-level scenarios of the task API, run against the verified
//! store through the handler functions.

use task_api::api::handle_delete_tasks;
use task_api::api::handle_get_task;
use task_api::api::handle_list;
use task_api::api::handle_patch_task;
use task_api::api::handle_post_tasks;
use task_api::api::ApiStatus;
use task_api::store::TaskStore;
use task_api::task::PatchTask;
use task_api::task::PostTask;
use task_api::task::TaskPath;

/// A store in the state the migrated database starts in: two seeded
/// tasks, "First Task" and "Second Task", both not done.
fn seeded_store() -> TaskStore {
    let mut store = TaskStore::new();
    let s = handle_post_tasks(
        &mut store,
        PostTask {
            title: String::from("First Task"),
        },
    );
    assert_eq!(s, ApiStatus::Success);
    let s = handle_post_tasks(
        &mut store,
        PostTask {
            title: String::from("Second Task"),
        },
    );
    assert_eq!(s, ApiStatus::Success);
    store
}

#[test]
fn test_delete_task() {
    let mut store = seeded_store();
    let path = TaskPath { id: 1 };

    // found task
    {
        let (task, status) = handle_get_task(&store, &path);
        assert!(task.is_some());
        assert_eq!(status.code(), 200);
    }

    // delete task
    {
        let status = handle_delete_tasks(&mut store, &path);
        assert_eq!(status.code(), 200);
    }

    // not found task
    {
        let (task, status) = handle_get_task(&store, &path);
        assert!(task.is_none());
        assert_eq!(status.code(), 204);
    }
}

#[test]
fn test_get_task() {
    let store = seeded_store();

    let (task, status) = handle_get_task(&store, &TaskPath { id: 1 });
    assert_eq!(status.code(), 200);
    let task = task.unwrap();
    assert_eq!(task.id, 1);
    assert_eq!(task.title, "First Task");
    assert_eq!(task.done, false);

    // id is not found
    let (task, status) = handle_get_task(&store, &TaskPath { id: 99999 });
    assert!(task.is_none());
    assert_eq!(status.code(), 204);
}

#[test]
fn test_get_tasks() {
    let store = seeded_store();

    let (tasks, status) = handle_list(&store);
    assert_eq!(status.code(), 200);
    assert_eq!(tasks.len(), 2);
    assert_eq!(tasks[0].id, 1);
    assert_eq!(tasks[0].title, "First Task");
    assert_eq!(tasks[0].done, false);
    assert_eq!(tasks[1].id, 2);
    assert_eq!(tasks[1].title, "Second Task");
    assert_eq!(tasks[1].done, false);
}

#[test]
fn test_patch_task() {
    let mut store = seeded_store();
    let path = TaskPath { id: 1 };

    // found task
    {
        let (task, status) = handle_get_task(&store, &path);
        assert!(task.is_some());
        assert_eq!(status.code(), 200);
    }

    // patch task
    {
        let body = PatchTask {
            title: Some(String::from("test_patch_task")),
            done: Some(true),
        };
        let status = handle_patch_task(&mut store, &path, body);
        assert_eq!(status.code(), 200);
    }

    // get patched task
    {
        let (task, _) = handle_get_task(&store, &path);
        let task = task.unwrap();
        assert_eq!(task.title, "test_patch_task".to_string());
        assert!(task.done);
    }
}

#[test]
fn test_post_tasks() {
    let mut store = TaskStore::new();

    // post
    {
        let body = PostTask {
            title: String::from("Test Task Test"),
        };
        let status = handle_post_tasks(&mut store, body);
        assert_eq!(status.code(), 200);
    }

    // get
    {
        let (tasks, _) = handle_list(&store);
        assert_eq!(tasks.len(), 1);
        assert_eq!(tasks[0].id, 1);
        assert_eq!(tasks[0].title, "Test Task Test");
        assert_eq!(tasks[0].done, false);
    }
}
