//! The table of binds as a view shows it: two text columns, the note and the
//! action, and one row for each bind.

use crate::state::interface::{StateMessageRequest, StateMessageResponse};
use vstd::prelude::*;

verus! {

/// The number of columns of the table.
pub const COLUMNS: i32 = 2;

/// A column of the table.
#[derive(Clone, Copy, Debug, PartialEq, Eq, Structural)]
pub enum Column {
    /// The written form of the bind's note.
    Note,
    /// The name of the bind's kind of action.
    Action,
}

/// The column with a number: 0 is the note, 1 the action.
pub open spec fn spec_column(column: int) -> Option<Column> {
    if column == 0 {
        Some(Column::Note)
    } else if column == 1 {
        Some(Column::Action)
    } else {
        None
    }
}

/// The column with a number; `None` for a number that names no column.
pub fn column_type(column: i32) -> (kind: Option<Column>)
    ensures
        kind == spec_column(column as int),
{
    if column == 0 {
        Some(Column::Note)
    } else if column == 1 {
        Some(Column::Action)
    } else {
        None
    }
}

/// The number of rows for a registry of a length; `None` where the table
/// cannot count so far.
pub fn num_rows(len: usize) -> (rows: Option<i32>)
    ensures
        len <= i32::MAX ==> rows == Some(len as i32),
        len > i32::MAX ==> rows is None,
{
    if len <= i32::MAX as usize {
        Some(len as i32)
    } else {
        None
    }
}

/// The request that fetches the text of a cell; `None` for a column that the
/// table does not have or a row before the first.
pub fn cell_request(column: i32, row: i32) -> (request: Option<StateMessageRequest>)
    ensures
        request == (if row < 0 {
            None
        } else {
            match spec_column(column as int) {
                Some(Column::Note) => Some(StateMessageRequest::NoteString(row as usize)),
                Some(Column::Action) => Some(StateMessageRequest::ActionString(row as usize)),
                None => None,
            }
        }),
{
    if row < 0 {
        return None;
    }
    match column_type(column) {
        Some(Column::Note) => Some(StateMessageRequest::NoteString(row as usize)),
        Some(Column::Action) => Some(StateMessageRequest::ActionString(row as usize)),
        None => None,
    }
}

/// The text of a cell out of the answer to its request; `None` for an answer
/// of another kind, or one that found no bind.
pub fn cell_text(column: Column, response: StateMessageResponse) -> (text: Option<String>)
    ensures
        text == (match (column, response) {
            (Column::Note, StateMessageResponse::NoteString(Ok(name))) => Some(name),
            (Column::Action, StateMessageResponse::ActionString(Ok(name))) => Some(name),
            _ => None,
        }),
{
    match column {
        Column::Note => match response.note_string() {
            Some(Ok(name)) => Some(name),
            _ => None,
        },
        Column::Action => match response.action_string() {
            Some(Ok(name)) => Some(name),
            _ => None,
        },
    }
}

} // verus!
