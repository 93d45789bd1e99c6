//! The task file as a whole: what a load finds in it and what a save that
//! succeeds leaves in it.
//!
//! The file is taken here by the tasks it holds, not by its text, and `None`
//! stands for no file at all.

use vstd::prelude::*;

use crate::error::StorageError;
use crate::load::{loaded, StoredFile};
use crate::location::temp_name;
use crate::merge::{distinct_names, has_name, is_first_named, merged, position};
use crate::merge_facts::{
    lemma_merge_adds_new_name, lemma_merge_into_nothing, lemma_merge_names,
    lemma_merge_replaces_known_name, lemma_merge_stores_saved, lemma_merge_twice,
};
use crate::save::{asks, backoff_millis, first_phase, next_phase, Phase, SaveAction, SaveEvent};
use crate::task::{task_views, Task, TaskView};

verus! {

/// The tasks that a load finds in the file.
pub open spec fn tasks_in(file: Option<Seq<TaskView>>) -> Seq<TaskView> {
    match file {
        Some(tasks) => tasks,
        None => Seq::empty(),
    }
}

/// The file after a save of `incoming` that succeeded, where the save found
/// `file`. A save of no tasks removes the file; any other save stores the
/// merge of its tasks into the tasks found.
pub open spec fn file_after_save(
    file: Option<Seq<TaskView>>,
    incoming: Seq<TaskView>,
) -> Option<Seq<TaskView>> {
    if incoming.len() == 0 {
        None
    } else {
        Some(merged(tasks_in(file), incoming))
    }
}

/// A load where there is no file finds what `tasks_in` says of no file: no
/// tasks, and no error.
pub proof fn lemma_no_file_loads_empty()
    ensures
        loaded(StoredFile::Absent) == Ok::<Seq<TaskView>, StorageError>(tasks_in(None)),
{
}

/// A save whose steps all succeed ends well, and the tasks that it hands
/// out to be written are those that `file_after_save` names: the merge of
/// the saved tasks into the tasks that were read.
pub proof fn lemma_save_that_succeeds(
    file_name: Seq<char>,
    incoming: Seq<TaskView>,
    current: Vec<Task>,
    suffix: nat,
)
    requires
        incoming.len() > 0,
    ensures
        ({
            let reading = first_phase(true, incoming);
            let writing = next_phase(
                file_name,
                incoming,
                reading,
                SaveEvent::Loaded(Ok(current)),
                suffix,
            );
            let renaming = next_phase(file_name, incoming, writing, SaveEvent::Done, suffix);
            let sweeping = next_phase(file_name, incoming, renaming, SaveEvent::Done, suffix);
            let finished = next_phase(file_name, incoming, sweeping, SaveEvent::Done, suffix);
            &&& reading == Phase::Reading { failures: 0 }
            &&& writing == Phase::Writing {
                temp_name: temp_name(file_name, suffix),
                tasks: file_after_save(Some(task_views(current@)), incoming).unwrap(),
            }
            &&& renaming == Phase::Renaming { temp_name: temp_name(file_name, suffix) }
            &&& sweeping == Phase::Sweeping
            &&& finished == Phase::Finished { outcome: Ok(()) }
        }),
{
}

/// A save of no tasks asks for the file to be removed and for nothing
/// else, so that the next load finds no tasks.
pub proof fn lemma_empty_save_clears(
    file_name: Seq<char>,
    file: Option<Seq<TaskView>>,
    suffix: nat,
)
    ensures
        first_phase(true, Seq::empty()) == Phase::Clearing,
        asks(Phase::Clearing, SaveAction::RemoveFile),
        next_phase(file_name, Seq::empty(), Phase::Clearing, SaveEvent::Done, suffix)
            == (Phase::Finished { outcome: Ok(()) }),
        file_after_save(file, Seq::empty()) is None,
        tasks_in(file_after_save(file, Seq::empty())) == Seq::<TaskView>::empty(),
{
}

/// A save reads the stored tasks at most three times. After the first
/// failure it waits twenty milliseconds and after the second forty; the
/// third failure ends the save with that failure's error inside.
pub proof fn lemma_reads_are_bounded(
    file_name: Seq<char>,
    incoming: Seq<TaskView>,
    first: StorageError,
    second: StorageError,
    third: StorageError,
    suffix: nat,
)
    ensures
        ({
            let wait_one = next_phase(
                file_name,
                incoming,
                Phase::Reading { failures: 0 },
                SaveEvent::Loaded(Err(first)),
                suffix,
            );
            let read_two = next_phase(file_name, incoming, wait_one, SaveEvent::Done, suffix);
            let wait_two = next_phase(
                file_name,
                incoming,
                read_two,
                SaveEvent::Loaded(Err(second)),
                suffix,
            );
            let read_three = next_phase(file_name, incoming, wait_two, SaveEvent::Done, suffix);
            let finished = next_phase(
                file_name,
                incoming,
                read_three,
                SaveEvent::Loaded(Err(third)),
                suffix,
            );
            &&& wait_one == Phase::BackingOff { failures: 1 }
            &&& asks(wait_one, SaveAction::Wait { millis: 20 })
            &&& read_two == Phase::Reading { failures: 1 }
            &&& wait_two == Phase::BackingOff { failures: 2 }
            &&& asks(wait_two, SaveAction::Wait { millis: 40 })
            &&& read_three == Phase::Reading { failures: 2 }
            &&& finished == Phase::Finished {
                outcome: Err(StorageError::PersistentReadFailure(Box::new(third))),
            }
        }),
{
    reveal_with_fuel(backoff_millis, 3);
}

/// Where nothing is stored, a save of tasks with different names followed
/// by a load gives back exactly the saved tasks, in their order.
pub proof fn lemma_save_then_load(file: Option<Seq<TaskView>>, incoming: Seq<TaskView>)
    requires
        tasks_in(file).len() == 0,
        distinct_names(incoming),
    ensures
        tasks_in(file_after_save(file, incoming)) == incoming,
{
    assert(tasks_in(file) =~= Seq::<TaskView>::empty());
    lemma_merge_into_nothing(incoming);
    if incoming.len() == 0 {
        assert(incoming =~= Seq::<TaskView>::empty());
    }
}

/// Whatever is stored, after a save of tasks with different names each
/// saved task is the first stored task of its name.
pub proof fn lemma_saved_tasks_are_stored(
    file: Option<Seq<TaskView>>,
    incoming: Seq<TaskView>,
    j: int,
)
    requires
        distinct_names(incoming),
        0 <= j < incoming.len(),
    ensures
        ({
            let after = tasks_in(file_after_save(file, incoming));
            is_first_named(after, incoming[j].name, position(after, incoming[j].name))
                && after[position(after, incoming[j].name)] == incoming[j]
        }),
{
    let name = incoming[j].name;
    let after = tasks_in(file_after_save(file, incoming));
    lemma_merge_stores_saved(tasks_in(file), incoming, name);
    crate::merge::lemma_position_of_known(after, name);
    crate::merge_facts::lemma_last_position(incoming, name);
    let last = crate::merge::last_position(incoming, name);
    if last < j {
        assert(incoming[j].name != name);
    }
    if j < last {
        assert(incoming[j].name != incoming[last].name);
    }
}

/// A second save of the same tasks leaves the file as the first one left it.
pub proof fn lemma_save_twice(file: Option<Seq<TaskView>>, incoming: Seq<TaskView>)
    ensures
        file_after_save(file_after_save(file, incoming), incoming) == file_after_save(
            file,
            incoming,
        ),
{
    if incoming.len() > 0 {
        lemma_merge_twice(tasks_in(file), incoming);
    }
}

/// A save of one task under a new name adds it after the stored tasks; a
/// save of one task under a stored name puts it in that task's place. The
/// other stored tasks stay as they are and where they are.
pub proof fn lemma_save_of_one_task(stored: Seq<TaskView>, task: TaskView)
    ensures
        !has_name(stored, task.name) ==> file_after_save(Some(stored), seq![task]) == Some(
            stored.push(task),
        ),
        has_name(stored, task.name) ==> file_after_save(Some(stored), seq![task]) == Some(
            stored.update(position(stored, task.name), task),
        ),
{
    if has_name(stored, task.name) {
        crate::merge::lemma_position_of_known(stored, task.name);
        lemma_merge_replaces_known_name(stored, task, position(stored, task.name));
    } else {
        lemma_merge_adds_new_name(stored, task);
    }
}

/// A save of some tasks loses no name: every name that was stored and
/// every name that was saved is stored afterwards, and no other. So saves
/// that follow one another, each adding a name of its own, leave all those
/// names in the file, in whatever order they ran.
pub proof fn lemma_save_keeps_names(
    file: Option<Seq<TaskView>>,
    incoming: Seq<TaskView>,
    name: Seq<char>,
)
    requires
        incoming.len() > 0,
    ensures
        has_name(tasks_in(file_after_save(file, incoming)), name) <==> has_name(
            tasks_in(file),
            name,
        ) || has_name(incoming, name),
{
    lemma_merge_names(tasks_in(file), incoming, name);
}

} // verus!
