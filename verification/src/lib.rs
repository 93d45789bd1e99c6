//! A small store of named, interval-based reminder tasks.
//!
//! The crate holds the rules of the task file: what a task is and when it is
//! due, how a stored document is read leniently, how a save is merged into
//! what is already stored, and in which order a save touches the disk. It
//! performs no file access itself; a caller carries out the steps it names.

pub mod document;
pub mod error;
pub mod interval;
pub mod load;
pub mod location;
pub mod merge;
pub mod merge_facts;
pub mod save;
pub mod schedule;
pub mod store;
pub mod task;
pub mod text;
pub mod timestamp;

pub use document::JsonValue;
pub use error::StorageError;
pub use interval::Interval;
pub use load::{load_tasks, StoredFile};
pub use location::{project_file_path, StorageLocation};
pub use save::{save_tasks, SaveAction, SaveEvent, SaveOperation};
pub use schedule::tasks_to_run;
pub use task::{Task, TaskView};
pub use timestamp::Timestamp;
