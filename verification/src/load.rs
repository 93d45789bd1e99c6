//! Reading the stored tasks: strictly where the file follows the schema,
//! leniently where it does not.
//!
//! The lenient reading asks only that the document be a JSON array. Each
//! element gives one task, and a field that is missing or of the wrong kind
//! takes its default: an empty name, the daily interval, not enabled, never
//! run.

use vstd::prelude::*;
use vstd::string::*;

use crate::document::{parse_json, parsed_json, JsonValue};
use crate::error::StorageError;
use crate::interval::Interval;
use crate::task::{task_views, Task, TaskView};
use crate::timestamp::{parse_rfc3339, rfc3339_instant, Timestamp};

verus! {

/// What was found where the task file should be.
#[derive(Debug)]
pub enum StoredFile {
    /// The system offers no place for the task file.
    NoLocation,
    /// There is no task file.
    Absent,
    /// There is a task file, but it could not be read as text.
    Unreadable,
    /// The text of the task file and, where the file follows the schema of
    /// the task record to the letter, the tasks that a strict decoder made
    /// of it.
    Text { text: String, strict: Option<Vec<Task>> },
}

/// The text that the member `key` of `item` holds, if it holds one.
pub open spec fn text_member(item: JsonValue, key: Seq<char>) -> Option<Seq<char>> {
    match item.member(key) {
        Some(JsonValue::String(text)) => Some(text@),
        _ => None,
    }
}

/// The task that the lenient reading makes of one element of the document.
pub open spec fn lenient_task(item: JsonValue) -> TaskView {
    TaskView {
        name: match text_member(item, "name"@) {
            Some(name) => name,
            None => Seq::empty(),
        },
        interval: match text_member(item, "interval"@) {
            Some(label) => Interval::from_label(label),
            None => Interval::Daily,
        },
        last_run: match text_member(item, "last_run"@) {
            Some(moment) => rfc3339_instant(moment),
            None => None,
        },
        enabled: match item.member("enabled"@) {
            Some(JsonValue::Bool(flag)) => flag,
            _ => false,
        },
    }
}

/// The tasks that the lenient reading makes of a document: one for each
/// element of an array, and an error for any other document.
pub open spec fn lenient_tasks(document: JsonValue) -> Result<Seq<TaskView>, StorageError> {
    match document {
        JsonValue::Array(items) => Ok(Seq::new(items@.len(), |i: int| lenient_task(items@[i]))),
        _ => Err(StorageError::MalformedDocument),
    }
}

/// The tasks that the lenient reading makes of the text of a task file. A
/// text that is not JSON at all is malformed, as is one that is no array.
pub open spec fn leniently_decoded(text: Seq<char>) -> Result<Seq<TaskView>, StorageError> {
    match parsed_json(text) {
        Some(document) => lenient_tasks(document),
        None => Err(StorageError::MalformedDocument),
    }
}

/// What a load returns for what was found. No file means no tasks. Where
/// the strict decoder accepted the file its tasks stand; otherwise the file
/// is read leniently.
pub open spec fn loaded(found: StoredFile) -> Result<Seq<TaskView>, StorageError> {
    match found {
        StoredFile::NoLocation => Err(StorageError::NoStorageLocation),
        StoredFile::Absent => Ok(Seq::empty()),
        StoredFile::Unreadable => Err(StorageError::ReadFailure),
        StoredFile::Text { text, strict } => match strict {
            Some(tasks) => Ok(task_views(tasks@)),
            None => leniently_decoded(text@),
        },
    }
}

/// Whether `outcome` is `expected`, with each task taken by its view.
pub open spec fn yields(
    outcome: Result<Vec<Task>, StorageError>,
    expected: Result<Seq<TaskView>, StorageError>,
) -> bool {
    match outcome {
        Ok(tasks) => expected == Ok::<Seq<TaskView>, StorageError>(task_views(tasks@)),
        Err(error) => expected == Err::<Seq<TaskView>, StorageError>(error),
    }
}

/// Only an array is read as a list of tasks: every other document is
/// malformed, and no array is.
pub proof fn lemma_only_arrays_hold_tasks(document: JsonValue)
    ensures
        document is Array <==> lenient_tasks(document) is Ok,
        !(document is Array) ==> lenient_tasks(document) == Err::<Seq<TaskView>, StorageError>(
            StorageError::MalformedDocument,
        ),
        document matches JsonValue::Array(items) ==> lenient_tasks(document).unwrap().len()
            == items@.len(),
{
}

fn text_of<'a>(item: &'a JsonValue, key: &str) -> (text: Option<&'a String>)
    ensures
        match text {
            Some(text) => text_member(*item, key@) == Some(text@),
            None => text_member(*item, key@) is None,
        },
{
    match item.get(key) {
        Some(JsonValue::String(text)) => Some(text),
        _ => None,
    }
}

/// Reads one element of the document as a task, leniently.
pub fn task_from_value(item: &JsonValue) -> (task: Task)
    ensures
        task@ == lenient_task(*item),
{
    let name = match text_of(item, "name") {
        Some(name) => name.clone(),
        None => String::new(),
    };
    let interval = match text_of(item, "interval") {
        Some(label) => Interval::parse_lenient(label.as_str()),
        None => Interval::Daily,
    };
    let last_run: Option<Timestamp> = match text_of(item, "last_run") {
        Some(moment) => parse_rfc3339(moment.as_str()),
        None => None,
    };
    let enabled = match item.get("enabled") {
        Some(JsonValue::Bool(flag)) => *flag,
        _ => false,
    };
    Task { name, interval, last_run, enabled }
}

/// Reads a document as a list of tasks, leniently.
pub fn tasks_from_document(document: &JsonValue) -> (outcome: Result<Vec<Task>, StorageError>)
    ensures
        yields(outcome, lenient_tasks(*document)),
{
    match document {
        JsonValue::Array(items) => {
            let mut tasks: Vec<Task> = Vec::new();
            let mut i: usize = 0;
            while i < items.len()
                invariant
                    i <= items.len(),
                    tasks@.len() == i,
                    forall|j: int| 0 <= j < i ==> tasks@[j]@ == lenient_task(items@[j]),
                decreases items.len() - i,
            {
                tasks.push(task_from_value(&items[i]));
                i += 1;
            }
            assert(task_views(tasks@) =~= Seq::new(
                items@.len(),
                |i: int| lenient_task(items@[i]),
            ));
            Ok(tasks)
        },
        _ => Err(StorageError::MalformedDocument),
    }
}

/// Reads the text of a task file as a list of tasks, leniently.
pub fn decode_leniently(text: &str) -> (outcome: Result<Vec<Task>, StorageError>)
    ensures
        yields(outcome, leniently_decoded(text@)),
{
    match parse_json(text) {
        Some(document) => tasks_from_document(&document),
        None => Err(StorageError::MalformedDocument),
    }
}

/// Gives the stored tasks for what was found where the task file should be.
pub fn load_tasks(found: StoredFile) -> (outcome: Result<Vec<Task>, StorageError>)
    ensures
        yields(outcome, loaded(found)),
{
    match found {
        StoredFile::NoLocation => Err(StorageError::NoStorageLocation),
        StoredFile::Absent => {
            let tasks: Vec<Task> = Vec::new();
            assert(task_views(tasks@) =~= Seq::empty());
            Ok(tasks)
        },
        StoredFile::Unreadable => Err(StorageError::ReadFailure),
        StoredFile::Text { text, strict } => match strict {
            Some(tasks) => Ok(tasks),
            None => decode_leniently(text.as_str()),
        },
    }
}

} // verus!
