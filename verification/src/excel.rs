//! The rows of a task, as the spreadsheet page fetches them: the task's name,
//! its stored rows and its table configuration.
use crate::json::json_top_fields;
use crate::json::json_value;
use crate::json::parse_json;
use crate::json::utf8_text;
use crate::submission::bytes_of;
use crate::submission::stored_text;
use crate::submission::StoreError;
use vstd::prelude::*;

verus! {

/// What is served when nothing is stored yet: an empty JSON array.
pub const EMPTY_LIST: &'static str = "[]";

/// A task's name with its stored rows and table configuration, as JSON values.
pub struct TableObj {
    pub name: String,
    pub rows: serde_json::Value,
    pub config: serde_json::Value,
}

/// The text served for a stored entry: the stored text, or an empty JSON
/// array when nothing is stored; `None` when the stored bytes are not UTF-8.
pub open spec fn served_text(stored: Option<Seq<u8>>) -> Option<Seq<char>> {
    match stored {
        None => Some(EMPTY_LIST@),
        Some(b) => stored_text(b),
    }
}

/// Why a stored entry cannot be served: `None` when it can.
pub open spec fn load_failure(stored: Option<Seq<u8>>) -> Option<StoreError> {
    match served_text(stored) {
        None => Some(StoreError::NotUtf8),
        Some(t) => if json_top_fields(t) is Some {
            None
        } else {
            Some(StoreError::NotJson)
        },
    }
}

/// Reads a stored entry as a JSON value.
fn load_json(stored: &Option<Vec<u8>>) -> (r: Result<serde_json::Value, StoreError>)
    ensures
        match load_failure(bytes_of(stored)) {
            None => r matches Ok(v) && v == json_value(served_text(bytes_of(stored))->0),
            Some(e) => r matches Err(f) && f == e,
        },
{
    let text = match stored {
        None => String::from_str(EMPTY_LIST),
        Some(bytes) => match utf8_text(bytes.as_slice()) {
            Some(t) => t,
            None => return Err(StoreError::NotUtf8),
        },
    };
    match parse_json(text.as_str()) {
        Ok((v, _)) => Ok(v),
        Err(_) => Err(StoreError::NotJson),
    }
}

/// The rows of task `name`: its stored rows and its stored table
/// configuration, each an empty JSON array when nothing is stored.
pub fn table_obj(name: &str, rows: &Option<Vec<u8>>, config: &Option<Vec<u8>>) -> (r: TableObj)
    requires
        load_failure(bytes_of(rows)) is None,
        load_failure(bytes_of(config)) is None,
    ensures
        r.name@ == name@,
        r.rows == json_value(served_text(bytes_of(rows))->0),
        r.config == json_value(served_text(bytes_of(config))->0),
{
    let rows = match load_json(rows) {
        Ok(v) => v,
        Err(_) => vstd::pervasive::unreached(),
    };
    let config = match load_json(config) {
        Ok(v) => v,
        Err(_) => vstd::pervasive::unreached(),
    };
    TableObj { name: String::from_str(name), rows, config }
}

/// The rows of task `name` on every stored value: `table_obj` where both
/// entries read back, and otherwise the first entry (rows, then
/// configuration) that does not, and why.
pub fn try_table_obj(name: &str, rows: &Option<Vec<u8>>, config: &Option<Vec<u8>>) -> (r: Result<
    TableObj,
    StoreError,
>)
    ensures
        match load_failure(bytes_of(rows)) {
            Some(e) => r matches Err(f) && f == e,
            None => match load_failure(bytes_of(config)) {
                Some(e) => r matches Err(f) && f == e,
                None => {
                    &&& r matches Ok(t)
                    &&& t.name@ == name@
                    &&& t.rows == json_value(served_text(bytes_of(rows))->0)
                    &&& t.config == json_value(served_text(bytes_of(config))->0)
                },
            },
        },
{
    if let Err(e) = load_json(rows) {
        return Err(e);
    }
    if let Err(e) = load_json(config) {
        return Err(e);
    }
    Ok(table_obj(name, rows, config))
}

} // verus!
