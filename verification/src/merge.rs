//! Merging the tasks of a save into the tasks that are already stored.
//!
//! Tasks are matched by name. A task whose name is stored already takes the
//! place of the first stored task of that name; any other task is added at
//! the end. Stored tasks that the save does not name stay where they are.

use vstd::prelude::*;

use crate::task::{task_views, Task, TaskView};

verus! {

/// Whether `i` is the position of the first task in `tasks` that is named `name`.
pub open spec fn is_first_named(tasks: Seq<TaskView>, name: Seq<char>, i: int) -> bool {
    &&& 0 <= i < tasks.len()
    &&& tasks[i].name == name
    &&& forall|j: int| 0 <= j < i ==> tasks[j].name != name
}

/// Whether some task in `tasks` is named `name`.
pub open spec fn has_name(tasks: Seq<TaskView>, name: Seq<char>) -> bool {
    exists|i: int| 0 <= i < tasks.len() && #[trigger] tasks[i].name == name
}

/// Whether no two tasks in `tasks` share a name.
pub open spec fn distinct_names(tasks: Seq<TaskView>) -> bool {
    forall|i: int, j: int|
        0 <= i < j < tasks.len() ==> #[trigger] tasks[i].name != #[trigger] tasks[j].name
}

/// The position of the first task in `tasks` that is named `name`, where
/// there is such a task.
pub open spec fn position(tasks: Seq<TaskView>, name: Seq<char>) -> int {
    choose|i: int| is_first_named(tasks, name, i)
}

/// The position of the last task in `tasks` that is named `name`, or -1
/// where there is none.
pub open spec fn last_position(tasks: Seq<TaskView>, name: Seq<char>) -> int
    decreases tasks.len(),
{
    if tasks.len() == 0 {
        -1
    } else if tasks.last().name == name {
        tasks.len() - 1
    } else {
        last_position(tasks.drop_last(), name)
    }
}

/// `stored` after one task has been merged into it: `task` replaces the
/// first stored task of its name, or is added at the end when there is none.
pub open spec fn upsert(stored: Seq<TaskView>, task: TaskView) -> Seq<TaskView> {
    if has_name(stored, task.name) {
        stored.update(position(stored, task.name), task)
    } else {
        stored.push(task)
    }
}

/// `stored` after the tasks of `incoming` have been merged into it one by
/// one, from the first to the last.
pub open spec fn merged(stored: Seq<TaskView>, incoming: Seq<TaskView>) -> Seq<TaskView>
    decreases incoming.len(),
{
    if incoming.len() == 0 {
        stored
    } else {
        upsert(merged(stored, incoming.drop_last()), incoming.last())
    }
}

/// Finds the first task in `tasks` that is named `name`.
pub fn position_by_name(tasks: &Vec<Task>, name: &String) -> (found: Option<usize>)
    ensures
        match found {
            Some(i) => is_first_named(task_views(tasks@), name@, i as int),
            None => !has_name(task_views(tasks@), name@),
        },
{
    let mut i: usize = 0;
    while i < tasks.len()
        invariant
            i <= tasks.len(),
            forall|j: int| 0 <= j < i ==> task_views(tasks@)[j].name != name@,
        decreases tasks.len() - i,
    {
        if tasks[i].name == *name {
            return Some(i);
        }
        i += 1;
    }
    None
}

/// Merges `incoming` into `current` and returns the list to store.
pub fn merge_tasks(current: Vec<Task>, incoming: &[Task]) -> (result: Vec<Task>)
    ensures
        task_views(result@) == merged(task_views(current@), task_views(incoming@)),
{
    let ghost stored = task_views(current@);
    let ghost added = task_views(incoming@);
    let mut result = current;
    let mut k: usize = 0;
    while k < incoming.len()
        invariant
            k <= incoming.len(),
            added == task_views(incoming@),
            task_views(result@) == merged(stored, added.take(k as int)),
        decreases incoming.len() - k,
    {
        let task = incoming[k].clone();
        let ghost before = task_views(result@);
        proof {
            assert(added.take(k + 1).drop_last() =~= added.take(k as int));
            assert(added.take(k + 1).last() == task@);
        }
        match position_by_name(&result, &task.name) {
            Some(i) => {
                result.set(i, task);
                proof {
                    lemma_position(before, task@.name, i as int);
                    assert(task_views(result@) =~= before.update(i as int, task@));
                }
            },
            None => {
                result.push(task);
                proof {
                    assert(task_views(result@) =~= before.push(task@));
                }
            },
        }
        k += 1;
    }
    proof {
        assert(added.take(k as int) =~= added);
    }
    result
}

/// A name that occurs in a list has exactly one first position, and
/// `position` gives it.
pub proof fn lemma_position(tasks: Seq<TaskView>, name: Seq<char>, i: int)
    requires
        0 <= i < tasks.len(),
        tasks[i].name == name,
    ensures
        has_name(tasks, name),
        is_first_named(tasks, name, position(tasks, name)),
        position(tasks, name) <= i,
        is_first_named(tasks, name, i) ==> position(tasks, name) == i,
{
    lemma_first_named_exists(tasks, name, i);
    let p = position(tasks, name);
    if i < p {
        assert(tasks[i].name != name);
    }
    if is_first_named(tasks, name, i) && p < i {
        assert(tasks[p].name != name);
    }
}

proof fn lemma_first_named_exists(tasks: Seq<TaskView>, name: Seq<char>, k: int)
    requires
        0 <= k < tasks.len(),
        tasks[k].name == name,
    ensures
        exists|i: int| is_first_named(tasks, name, i),
    decreases k,
{
    if forall|j: int| 0 <= j < k ==> tasks[j].name != name {
        assert(is_first_named(tasks, name, k));
    } else {
        let j = choose|j: int| 0 <= j < k && tasks[j].name == name;
        lemma_first_named_exists(tasks, name, j);
    }
}

/// The first position of a name that occurs in a list.
pub proof fn lemma_position_of_known(tasks: Seq<TaskView>, name: Seq<char>)
    requires
        has_name(tasks, name),
    ensures
        is_first_named(tasks, name, position(tasks, name)),
{
    let i = choose|i: int| 0 <= i < tasks.len() && #[trigger] tasks[i].name == name;
    lemma_position(tasks, name, i);
}

} // verus!
