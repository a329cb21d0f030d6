//! A minimal task-list library: a single `Task` entity (id, title, done)
//! kept in a relational-style store, with create, list, get, partial
//! update and delete operations, and the response mapping of the HTTP
//! surface that exposes them.

pub mod api;
pub mod laws;
pub mod sql;
pub mod store;
pub mod task;

pub use task::Task;
pub use task::TaskPath;
pub use task::PatchTask;
pub use task::PostTask;
