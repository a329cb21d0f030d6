//! The SQL side of each operation: the parameterized statement text a
//! handler executes (only the static skeleton varies, every value stays
//! a bound parameter), and the integer encoding of the completion flag
//! at the storage boundary.

use vstd::prelude::*;

use crate::store::PatchChoice;

verus! {

/// Statement of the list operation.
pub fn list_statement() -> (s: &'static str)
    ensures
        s@ == "SELECT * FROM tasks"@,
{
    "SELECT * FROM tasks"
}

/// Statement of the get-by-id operation; the id is its one parameter.
pub fn get_statement() -> (s: &'static str)
    ensures
        s@ == "SELECT * FROM tasks WHERE id = ?"@,
{
    "SELECT * FROM tasks WHERE id = ?"
}

/// Statement of the create operation; the title is its one parameter,
/// the id and the completion flag come from the table's defaults.
pub fn insert_statement() -> (s: &'static str)
    ensures
        s@ == "INSERT INTO tasks (title) VALUES (?)"@,
{
    "INSERT INTO tasks (title) VALUES (?)"
}

/// Statement of the delete operation; the id is its one parameter.
pub fn delete_statement() -> (s: &'static str)
    ensures
        s@ == "DELETE FROM tasks WHERE id = ?"@,
{
    "DELETE FROM tasks WHERE id = ?"
}

/// Statement of the partial-update operation, chosen by the tagged
/// choice: one skeleton per present-field combination, and none at all
/// for the no-op. Parameter order is the new title (if present), then
/// the new flag (if present), then the id.
pub fn patch_statement(c: &PatchChoice) -> (s: Option<&'static str>)
    ensures
        c matches PatchChoice::UpdateBoth(_, _) ==> s matches Some(q) && q@
            == "UPDATE tasks SET title = ?, done = ? WHERE id = ?"@,
        c matches PatchChoice::UpdateTitleOnly(_) ==> s matches Some(q) && q@
            == "UPDATE tasks SET title = ? WHERE id = ?"@,
        c matches PatchChoice::UpdateDoneOnly(_) ==> s matches Some(q) && q@
            == "UPDATE tasks SET done = ? WHERE id = ?"@,
        c matches PatchChoice::NoOp ==> s is None,
{
    match c {
        PatchChoice::UpdateBoth(_, _) => Some("UPDATE tasks SET title = ?, done = ? WHERE id = ?"),
        PatchChoice::UpdateTitleOnly(_) => Some("UPDATE tasks SET title = ? WHERE id = ?"),
        PatchChoice::UpdateDoneOnly(_) => Some("UPDATE tasks SET done = ? WHERE id = ?"),
        PatchChoice::NoOp => None,
    }
}

/// The stored form of the completion flag: 1 for true, 0 for false.
pub open spec fn spec_stored_of_done(done: bool) -> int {
    if done {
        1
    } else {
        0
    }
}

/// The completion flag a stored integer reads back as: any non-zero
/// value is true.
pub open spec fn spec_done_of_stored(v: int) -> bool {
    v != 0
}

/// Encodes the completion flag for the storage boundary.
pub fn done_to_stored(done: bool) -> (v: i64)
    ensures
        v == spec_stored_of_done(done),
{
    if done {
        1
    } else {
        0
    }
}

/// Decodes a stored completion flag back to a boolean.
pub fn stored_to_done(v: i64) -> (done: bool)
    ensures
        done == spec_done_of_stored(v as int),
{
    v != 0
}

} // verus!
