//! The task record and the rule that says when a task is due.

use vstd::prelude::*;
use vstd::string::*;

use crate::interval::Interval;
use crate::timestamp::{current_time, Timestamp};

verus! {

/// A named reminder that comes round at a fixed interval.
#[derive(Debug)]
pub struct Task {
    /// The name, by which a stored task is found again.
    pub name: String,
    pub interval: Interval,
    /// When the task last ran; `None` while it never has.
    pub last_run: Option<Timestamp>,
    /// A task that is not enabled is never due.
    pub enabled: bool,
}

/// What a task holds, with its name as a sequence of characters.
pub struct TaskView {
    pub name: Seq<char>,
    pub interval: Interval,
    pub last_run: Option<Timestamp>,
    pub enabled: bool,
}

impl TaskView {
    /// Whether the task is due at `now`: it is enabled, and it has never run
    /// or a full interval has passed since it last did. A task whose last
    /// run lies after `now` is not due.
    pub open spec fn due(self, now: Timestamp) -> bool {
        self.enabled && match self.last_run {
            None => true,
            Some(last) => now.since_epoch() - last.since_epoch() >= self.interval.seconds()
                * 1_000_000_000,
        }
    }
}

/// A task that is not enabled is never due. An enabled task that has never
/// run is due at every moment, and one whose last run lies after `now` is
/// not due at `now`.
pub proof fn lemma_due_rule(task: TaskView, now: Timestamp)
    ensures
        !task.enabled ==> !task.due(now),
        task.enabled && task.last_run is None ==> task.due(now),
        task.last_run matches Some(last) && now.since_epoch() < last.since_epoch() ==> !task.due(
            now,
        ),
{
}

impl View for Task {
    type V = TaskView;

    open spec fn view(&self) -> TaskView {
        TaskView {
            name: self.name@,
            interval: self.interval,
            last_run: self.last_run,
            enabled: self.enabled,
        }
    }
}

impl Clone for Task {
    fn clone(&self) -> (copy: Task)
        ensures
            copy@ == self@,
    {
        Task {
            name: self.name.clone(),
            interval: self.interval,
            last_run: self.last_run,
            enabled: self.enabled,
        }
    }
}

/// The views of the tasks in `tasks`, in the same order.
pub open spec fn task_views(tasks: Seq<Task>) -> Seq<TaskView> {
    Seq::new(tasks.len(), |i: int| tasks[i]@)
}

impl Task {
    /// A task that has never run and is not yet enabled.
    pub fn new(name: &str, interval: Interval) -> (task: Task)
        ensures
            task@ == (TaskView { name: name@, interval, last_run: None, enabled: false }),
    {
        Task { name: String::from_str(name), interval, last_run: None, enabled: false }
    }

    /// Tells whether the task is due at `now`.
    pub fn should_run(&self, now: Timestamp) -> (due: bool)
        ensures
            due == self@.due(now),
    {
        if !self.enabled {
            return false;
        }
        match self.last_run {
            None => true,
            Some(last) => {
                let needed: i128 = match self.interval {
                    Interval::Hourly => 3_600_000_000_000,
                    Interval::Daily => 86_400_000_000_000,
                    Interval::Weekly => 604_800_000_000_000,
                };
                now.nanos_since(&last) >= needed
            },
        }
    }

    /// Records that the task ran at `now`.
    pub fn mark_complete_at(&mut self, now: Timestamp)
        ensures
            final(self)@ == (TaskView { last_run: Some(now), ..old(self)@ }),
    {
        self.last_run = Some(now);
    }

    /// Records that the task ran just now, by the system clock.
    pub fn mark_complete(&mut self)
        ensures
            final(self)@.last_run is Some,
            final(self)@ == (TaskView { last_run: final(self)@.last_run, ..old(self)@ }),
    {
        self.mark_complete_at(current_time());
    }
}

} // verus!
