//! Picking the tasks that are due.

use vstd::prelude::*;

use crate::task::{task_views, Task, TaskView};
use crate::timestamp::Timestamp;

verus! {

/// Whether `due` lists the positions of the tasks in `tasks` that are due at
/// `now`: all of them, no others, each once, in rising order.
pub open spec fn lists_due(tasks: Seq<TaskView>, now: Timestamp, due: Seq<usize>) -> bool {
    &&& forall|k: int| 0 <= k < due.len() ==> due[k] < tasks.len() && tasks[due[k] as int].due(now)
    &&& forall|k: int, l: int| 0 <= k < l < due.len() ==> due[k] < due[l]
    &&& forall|i: int|
        0 <= i < tasks.len() && #[trigger] tasks[i].due(now) ==> exists|k: int|
            0 <= k < due.len() && due[k] == i
}

/// Gives the positions of the tasks that are due at `now`, in rising order.
pub fn tasks_to_run(tasks: &[Task], now: Timestamp) -> (due: Vec<usize>)
    ensures
        lists_due(task_views(tasks@), now, due@),
{
    let ghost views = task_views(tasks@);
    let mut due: Vec<usize> = Vec::new();
    let mut i: usize = 0;
    while i < tasks.len()
        invariant
            i <= tasks.len(),
            views == task_views(tasks@),
            forall|k: int| 0 <= k < due@.len() ==> due@[k] < i && views[due@[k] as int].due(now),
            forall|k: int, l: int| 0 <= k < l < due@.len() ==> due@[k] < due@[l],
            forall|j: int|
                0 <= j < i && #[trigger] views[j].due(now) ==> exists|k: int|
                    0 <= k < due@.len() && due@[k] == j,
        decreases tasks.len() - i,
    {
        if tasks[i].should_run(now) {
            let ghost before = due@;
            due.push(i);
            proof {
                assert forall|j: int| 0 <= j < i + 1 && #[trigger] views[j].due(now) implies exists|
                    k: int,
                | 0 <= k < due@.len() && due@[k] == j by {
                    if j < i {
                        let k = choose|k: int| 0 <= k < before.len() && before[k] == j;
                        assert(due@[k] == j);
                    } else {
                        assert(due@[before.len() as int] == j);
                    }
                }
            }
        }
        i += 1;
    }
    due
}

} // verus!
