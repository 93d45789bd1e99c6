//! The steps of a save, one decision at a time.
//!
//! A save reads what is stored, merges the new tasks into it, writes the
//! result to a temporary file and renames that file onto the task file. The
//! crate does not touch the disk: a [`SaveOperation`] names the next step, the
//! caller carries it out and reports how it went, and the operation decides
//! what follows.

use vstd::prelude::*;

use crate::error::StorageError;
use crate::location::{
    random_suffix, tasks_file_name, temp_file_name, temp_name, StorageLocation,
};
use crate::merge::{merge_tasks, merged};
use crate::task::{task_views, Task, TaskView};

verus! {

/// How often a save tries to read the stored tasks before it gives up.
pub const MAX_READ_ATTEMPTS: u32 = 3;

/// The milliseconds to wait after the given number of failed reads: twenty
/// after the first, and twice as long after each further one.
pub open spec fn backoff_millis(failures: nat) -> nat
    decreases failures,
{
    if failures == 0 {
        10
    } else {
        2 * backoff_millis((failures - 1) as nat)
    }
}

/// Where a save stands.
pub enum Phase {
    /// The save holds no tasks and so clears the store: the task file is
    /// being removed.
    Clearing,
    /// The stored tasks are being read, after `failures` failed attempts.
    Reading { failures: nat },
    /// The save waits before it reads again.
    BackingOff { failures: nat },
    /// The merged tasks are being written to the temporary file.
    Writing { temp_name: Seq<char>, tasks: Seq<TaskView> },
    /// The temporary file is being renamed onto the task file.
    Renaming { temp_name: Seq<char> },
    /// The write or the rename failed: the temporary file is being removed.
    Discarding { temp_name: Seq<char> },
    /// The task file is in place: temporary files left behind are being removed.
    Sweeping,
    /// The save has ended.
    Finished { outcome: Result<(), StorageError> },
}

/// What the caller reports after it has carried out a step.
pub enum SaveEvent {
    /// The answer to [`SaveAction::ReadCurrent`]: the stored tasks, or why
    /// they could not be had.
    Loaded(Result<Vec<Task>, StorageError>),
    /// The step was carried out.
    Done,
    /// The step could not be carried out.
    Failed,
}

/// The step that the caller is asked to carry out.
pub enum SaveAction<'a> {
    /// Remove the task file if there is one.
    RemoveFile,
    /// Load the stored tasks, no file counting as no tasks, and report them
    /// with [`SaveEvent::Loaded`].
    ReadCurrent,
    /// Wait for this many milliseconds.
    Wait { millis: u64 },
    /// Encode `tasks` and write them to a new file named `temp_name`, in the
    /// directory of the task file.
    WriteTemp { temp_name: &'a str, tasks: &'a [Task] },
    /// Rename the file named `temp_name` onto the task file.
    Rename { temp_name: &'a str },
    /// Remove the file named `temp_name`.
    RemoveTemp { temp_name: &'a str },
    /// Remove every file beside the task file whose name
    /// [`is_temp_file_of`](crate::location::is_temp_file_of) accepts. A file
    /// that cannot be removed is left; the step is reported as done.
    Sweep,
    /// Nothing is left to do: the save ended with `outcome`.
    Finish { outcome: &'a Result<(), StorageError> },
}

/// The phase in which a save begins. Without a place for the task file it
/// fails at once, and a save of no tasks clears the store.
pub open spec fn first_phase(located: bool, incoming: Seq<TaskView>) -> Phase {
    if !located {
        Phase::Finished { outcome: Err(StorageError::NoStorageLocation) }
    } else if incoming.len() == 0 {
        Phase::Clearing
    } else {
        Phase::Reading { failures: 0 }
    }
}

/// The phase that follows `phase` when the caller reports `event`. An event
/// that does not answer the step of `phase` changes nothing. `suffix` is the
/// number that the name of the temporary file ends with.
pub open spec fn next_phase(
    file_name: Seq<char>,
    incoming: Seq<TaskView>,
    phase: Phase,
    event: SaveEvent,
    suffix: nat,
) -> Phase {
    match phase {
        Phase::Clearing => match event {
            SaveEvent::Done => Phase::Finished { outcome: Ok(()) },
            SaveEvent::Failed => Phase::Finished { outcome: Err(StorageError::WriteFailure) },
            SaveEvent::Loaded(_) => phase,
        },
        Phase::Reading { failures } => match event {
            SaveEvent::Loaded(Ok(current)) => Phase::Writing {
                temp_name: temp_name(file_name, suffix),
                tasks: merged(task_views(current@), incoming),
            },
            SaveEvent::Loaded(Err(cause)) => if failures + 1 < MAX_READ_ATTEMPTS {
                Phase::BackingOff { failures: failures + 1 }
            } else {
                Phase::Finished {
                    outcome: Err(StorageError::PersistentReadFailure(Box::new(cause))),
                }
            },
            _ => phase,
        },
        Phase::BackingOff { failures } => match event {
            SaveEvent::Loaded(_) => phase,
            _ => Phase::Reading { failures },
        },
        Phase::Writing { temp_name, .. } => match event {
            SaveEvent::Done => Phase::Renaming { temp_name },
            SaveEvent::Failed => Phase::Discarding { temp_name },
            SaveEvent::Loaded(_) => phase,
        },
        Phase::Renaming { temp_name } => match event {
            SaveEvent::Done => Phase::Sweeping,
            SaveEvent::Failed => Phase::Discarding { temp_name },
            SaveEvent::Loaded(_) => phase,
        },
        Phase::Discarding { .. } => match event {
            SaveEvent::Loaded(_) => phase,
            _ => Phase::Finished { outcome: Err(StorageError::WriteFailure) },
        },
        Phase::Sweeping => match event {
            SaveEvent::Loaded(_) => phase,
            _ => Phase::Finished { outcome: Ok(()) },
        },
        Phase::Finished { .. } => phase,
    }
}

/// Whether `action` is the step of `phase`.
pub open spec fn asks<'a>(phase: Phase, action: SaveAction<'a>) -> bool {
    match phase {
        Phase::Clearing => action is RemoveFile,
        Phase::Reading { .. } => action is ReadCurrent,
        Phase::BackingOff { failures } => action == (SaveAction::Wait {
            millis: backoff_millis(failures) as u64,
        }),
        Phase::Writing { temp_name, tasks } => action matches SaveAction::WriteTemp {
            temp_name: name,
            tasks: list,
        } && name@ == temp_name && task_views(list@) == tasks,
        Phase::Renaming { temp_name } => action matches SaveAction::Rename { temp_name: name }
            && name@ == temp_name,
        Phase::Discarding { temp_name } => action matches SaveAction::RemoveTemp {
            temp_name: name,
        } && name@ == temp_name,
        Phase::Sweeping => action is Sweep,
        Phase::Finished { outcome } => action matches SaveAction::Finish { outcome: result }
            && *result == outcome,
    }
}

enum SaveState {
    Clearing,
    Reading { failures: u32 },
    BackingOff { failures: u32 },
    Writing { temp_name: String, tasks: Vec<Task> },
    Renaming { temp_name: String },
    Discarding { temp_name: String },
    Sweeping,
    Finished { outcome: Result<(), StorageError> },
}

impl SaveState {
    spec fn phase(self) -> Phase {
        match self {
            SaveState::Clearing => Phase::Clearing,
            SaveState::Reading { failures } => Phase::Reading { failures: failures as nat },
            SaveState::BackingOff { failures } => Phase::BackingOff { failures: failures as nat },
            SaveState::Writing { temp_name, tasks } => Phase::Writing {
                temp_name: temp_name@,
                tasks: task_views(tasks@),
            },
            SaveState::Renaming { temp_name } => Phase::Renaming { temp_name: temp_name@ },
            SaveState::Discarding { temp_name } => Phase::Discarding { temp_name: temp_name@ },
            SaveState::Sweeping => Phase::Sweeping,
            SaveState::Finished { outcome } => Phase::Finished { outcome },
        }
    }

    spec fn wf(self) -> bool {
        match self {
            SaveState::Reading { failures } => failures < MAX_READ_ATTEMPTS,
            SaveState::BackingOff { failures } => 0 < failures < MAX_READ_ATTEMPTS,
            _ => true,
        }
    }
}

/// A save in progress.
pub struct SaveOperation {
    file_name: String,
    incoming: Vec<Task>,
    state: SaveState,
}

/// What a save in progress amounts to: the name of the task file, the tasks
/// to be saved, and the phase that the save is in.
pub struct SaveView {
    pub file_name: Seq<char>,
    pub incoming: Seq<TaskView>,
    pub phase: Phase,
}

impl View for SaveOperation {
    type V = SaveView;

    closed spec fn view(&self) -> SaveView {
        SaveView {
            file_name: self.file_name@,
            incoming: task_views(self.incoming@),
            phase: self.state.phase(),
        }
    }
}

fn backoff_delay(failures: u32) -> (millis: u64)
    requires
        0 < failures < MAX_READ_ATTEMPTS,
    ensures
        millis == backoff_millis(failures as nat),
{
    proof {
        reveal_with_fuel(backoff_millis, 3);
    }
    if failures == 1 {
        20
    } else {
        40
    }
}

fn copy_tasks(tasks: &[Task]) -> (copy: Vec<Task>)
    ensures
        task_views(copy@) == task_views(tasks@),
{
    let mut copy: Vec<Task> = Vec::new();
    let mut i: usize = 0;
    while i < tasks.len()
        invariant
            i <= tasks.len(),
            copy@.len() == i,
            forall|j: int| 0 <= j < i ==> copy@[j]@ == tasks@[j]@,
        decreases tasks.len() - i,
    {
        copy.push(tasks[i].clone());
        i += 1;
    }
    assert(task_views(copy@) =~= task_views(tasks@));
    copy
}

impl SaveOperation {
    #[verifier::type_invariant]
    spec fn well_formed(self) -> bool {
        self.state.wf()
    }

    /// Begins a save of `tasks` to the task file at `location`; `None` says
    /// that the system offers no place for the file.
    pub fn begin(location: Option<&StorageLocation>, tasks: &[Task]) -> (operation: SaveOperation)
        ensures
            operation@.incoming == task_views(tasks@),
            operation@.phase == first_phase(location is Some, task_views(tasks@)),
            location matches Some(place) ==> operation@.file_name == place.file_name@,
    {
        let incoming = copy_tasks(tasks);
        match location {
            None => SaveOperation {
                file_name: String::new(),
                incoming,
                state: SaveState::Finished { outcome: Err(StorageError::NoStorageLocation) },
            },
            Some(place) => {
                let state = if tasks.len() == 0 {
                    SaveState::Clearing
                } else {
                    SaveState::Reading { failures: 0 }
                };
                SaveOperation { file_name: place.file_name.clone(), incoming, state }
            },
        }
    }

    /// The step that the caller is to carry out now.
    pub fn action(&self) -> (action: SaveAction<'_>)
        ensures
            asks(self@.phase, action),
    {
        proof {
            use_type_invariant(self);
        }
        match &self.state {
            SaveState::Clearing => SaveAction::RemoveFile,
            SaveState::Reading { .. } => SaveAction::ReadCurrent,
            SaveState::BackingOff { failures } => SaveAction::Wait {
                millis: backoff_delay(*failures),
            },
            SaveState::Writing { temp_name, tasks } => SaveAction::WriteTemp {
                temp_name: temp_name.as_str(),
                tasks: tasks.as_slice(),
            },
            SaveState::Renaming { temp_name } => SaveAction::Rename {
                temp_name: temp_name.as_str(),
            },
            SaveState::Discarding { temp_name } => SaveAction::RemoveTemp {
                temp_name: temp_name.as_str(),
            },
            SaveState::Sweeping => SaveAction::Sweep,
            SaveState::Finished { outcome } => SaveAction::Finish { outcome },
        }
    }

    /// Takes the caller's report on the last step and moves on; the name of
    /// a temporary file, where one is chosen, ends with `suffix`.
    pub fn advance_with(self, event: SaveEvent, suffix: u64) -> (next: SaveOperation)
        ensures
            next@.file_name == self@.file_name,
            next@.incoming == self@.incoming,
            next@.phase == next_phase(
                self@.file_name,
                self@.incoming,
                self@.phase,
                event,
                suffix as nat,
            ),
    {
        proof {
            use_type_invariant(&self);
        }
        let SaveOperation { file_name, incoming, state } = self;
        let state = match state {
            SaveState::Clearing => match event {
                SaveEvent::Done => SaveState::Finished { outcome: Ok(()) },
                SaveEvent::Failed => SaveState::Finished {
                    outcome: Err(StorageError::WriteFailure),
                },
                SaveEvent::Loaded(_) => SaveState::Clearing,
            },
            SaveState::Reading { failures } => match event {
                SaveEvent::Loaded(Ok(current)) => SaveState::Writing {
                    temp_name: temp_file_name(file_name.as_str(), suffix),
                    tasks: merge_tasks(current, incoming.as_slice()),
                },
                SaveEvent::Loaded(Err(cause)) => if failures + 1 < MAX_READ_ATTEMPTS {
                    SaveState::BackingOff { failures: failures + 1 }
                } else {
                    SaveState::Finished {
                        outcome: Err(StorageError::PersistentReadFailure(Box::new(cause))),
                    }
                },
                _ => SaveState::Reading { failures },
            },
            SaveState::BackingOff { failures } => match event {
                SaveEvent::Loaded(_) => SaveState::BackingOff { failures },
                _ => SaveState::Reading { failures },
            },
            SaveState::Writing { temp_name, tasks } => match event {
                SaveEvent::Done => SaveState::Renaming { temp_name },
                SaveEvent::Failed => SaveState::Discarding { temp_name },
                SaveEvent::Loaded(_) => SaveState::Writing { temp_name, tasks },
            },
            SaveState::Renaming { temp_name } => match event {
                SaveEvent::Done => SaveState::Sweeping,
                SaveEvent::Failed => SaveState::Discarding { temp_name },
                SaveEvent::Loaded(_) => SaveState::Renaming { temp_name },
            },
            SaveState::Discarding { temp_name } => match event {
                SaveEvent::Loaded(_) => SaveState::Discarding { temp_name },
                _ => SaveState::Finished { outcome: Err(StorageError::WriteFailure) },
            },
            SaveState::Sweeping => match event {
                SaveEvent::Loaded(_) => SaveState::Sweeping,
                _ => SaveState::Finished { outcome: Ok(()) },
            },
            SaveState::Finished { outcome } => SaveState::Finished { outcome },
        };
        SaveOperation { file_name, incoming, state }
    }

    /// Takes the caller's report on the last step and moves on. Where the
    /// name of a temporary file is chosen, its suffix is drawn at random.
    pub fn advance(self, event: SaveEvent) -> (next: SaveOperation)
        ensures
            next@.file_name == self@.file_name,
            next@.incoming == self@.incoming,
            exists|suffix: nat|
                next@.phase == next_phase(
                    self@.file_name,
                    self@.incoming,
                    self@.phase,
                    event,
                    suffix,
                ),
    {
        let suffix = random_suffix();
        self.advance_with(event, suffix)
    }
}

/// Begins a save of `tasks` to the task file of this system.
pub fn save_tasks(tasks: &[Task]) -> (operation: SaveOperation)
    ensures
        operation@.incoming == task_views(tasks@),
        exists|located: bool| operation@.phase == first_phase(located, task_views(tasks@)),
        operation@.phase != (Phase::Finished { outcome: Err(StorageError::NoStorageLocation) })
            ==> operation@.file_name == tasks_file_name(),
{
    let location = crate::location::project_file_path();
    SaveOperation::begin(location.as_ref(), tasks)
}

} // verus!
