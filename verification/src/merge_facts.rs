//! What holds of a merge, whatever is stored and whatever is saved.

use vstd::prelude::*;

use crate::merge::{
    distinct_names, has_name, is_first_named, last_position, lemma_position,
    lemma_position_of_known, merged, position, upsert,
};
use crate::task::TaskView;

verus! {

/// Merging one task keeps the length or adds one, keeps the name at every
/// stored position, and leaves the task at the first position of its name.
pub proof fn lemma_upsert(stored: Seq<TaskView>, task: TaskView)
    ensures
        upsert(stored, task).len() == if has_name(stored, task.name) {
            stored.len()
        } else {
            stored.len() + 1
        },
        forall|i: int| 0 <= i < stored.len() ==> upsert(stored, task)[i].name == stored[i].name,
        forall|i: int|
            0 <= i < stored.len() && stored[i].name != task.name ==> upsert(stored, task)[i]
                == stored[i],
        has_name(upsert(stored, task), task.name),
        upsert(stored, task)[position(upsert(stored, task), task.name)] == task,
        has_name(stored, task.name) ==> position(upsert(stored, task), task.name) == position(
            stored,
            task.name,
        ),
        !has_name(stored, task.name) ==> position(upsert(stored, task), task.name)
            == stored.len(),
{
    let after = upsert(stored, task);
    if has_name(stored, task.name) {
        lemma_position_of_known(stored, task.name);
        let p = position(stored, task.name);
        assert(after[p] == task);
        assert(is_first_named(after, task.name, p)) by {
            assert forall|j: int| 0 <= j < p implies after[j].name != task.name by {
                assert(after[j] == stored[j]);
            }
        }
        lemma_position(after, task.name, p);
    } else {
        let p = stored.len() as int;
        assert(after[p] == task);
        assert(is_first_named(after, task.name, p)) by {
            assert forall|j: int| 0 <= j < p implies after[j].name != task.name by {
                assert(after[j] == stored[j]);
                assert(stored[j].name == stored[j].name);
            }
        }
        lemma_position(after, task.name, p);
    }
}

/// Merging one task leaves every other name where it first stood, with the
/// task that stood there.
pub proof fn lemma_upsert_other_name(stored: Seq<TaskView>, task: TaskView, name: Seq<char>)
    requires
        name != task.name,
    ensures
        has_name(upsert(stored, task), name) <==> has_name(stored, name),
        has_name(stored, name) ==> position(upsert(stored, task), name) == position(stored, name)
            && upsert(stored, task)[position(stored, name)] == stored[position(stored, name)],
{
    let after = upsert(stored, task);
    lemma_upsert(stored, task);
    if has_name(stored, name) {
        lemma_position_of_known(stored, name);
        let p = position(stored, name);
        assert(after[p] == stored[p]);
        assert(is_first_named(after, name, p)) by {
            assert forall|j: int| 0 <= j < p implies after[j].name != name by {
                assert(after[j].name == stored[j].name);
            }
        }
        lemma_position(after, name, p);
    }
    if has_name(after, name) {
        let i = choose|i: int| 0 <= i < after.len() && #[trigger] after[i].name == name;
        if i < stored.len() {
            assert(stored[i].name == name);
        } else {
            assert(after[i] == task);
        }
    }
}

/// The names after a merge of one task are the stored names and the task's.
pub proof fn lemma_upsert_names(stored: Seq<TaskView>, task: TaskView, name: Seq<char>)
    ensures
        has_name(upsert(stored, task), name) <==> has_name(stored, name) || name == task.name,
{
    lemma_upsert(stored, task);
    if name != task.name {
        lemma_upsert_other_name(stored, task, name);
    }
}

/// A merge never shortens the stored list and never moves a stored name.
/// A stored task whose name the save does not hold is left as it is.
pub proof fn lemma_merge_keeps_stored(stored: Seq<TaskView>, incoming: Seq<TaskView>)
    ensures
        stored.len() <= merged(stored, incoming).len() <= stored.len() + incoming.len(),
        forall|i: int|
            0 <= i < stored.len() ==> merged(stored, incoming)[i].name == stored[i].name,
        forall|i: int|
            0 <= i < stored.len() && !has_name(incoming, stored[i].name) ==> merged(
                stored,
                incoming,
            )[i] == stored[i],
    decreases incoming.len(),
{
    if incoming.len() > 0 {
        let before = merged(stored, incoming.drop_last());
        lemma_merge_keeps_stored(stored, incoming.drop_last());
        lemma_upsert(before, incoming.last());
        assert forall|i: int|
            0 <= i < stored.len() && !has_name(incoming, stored[i].name) implies merged(
            stored,
            incoming,
        )[i] == stored[i] by {
            let name = stored[i].name;
            assert(incoming[incoming.len() - 1].name != name);
            if has_name(incoming.drop_last(), name) {
                let j = choose|j: int|
                    0 <= j < incoming.drop_last().len() && #[trigger] incoming.drop_last()[j].name
                        == name;
                assert(incoming[j].name == name);
            }
        }
    }
}

/// The names after a merge are the stored names and the names of the save:
/// nothing is lost and nothing else comes in.
pub proof fn lemma_merge_names(stored: Seq<TaskView>, incoming: Seq<TaskView>, name: Seq<char>)
    ensures
        has_name(merged(stored, incoming), name) <==> has_name(stored, name) || has_name(
            incoming,
            name,
        ),
    decreases incoming.len(),
{
    if incoming.len() > 0 {
        let rest = incoming.drop_last();
        lemma_merge_names(stored, rest, name);
        lemma_upsert_names(merged(stored, rest), incoming.last(), name);
        if has_name(rest, name) {
            let j = choose|j: int| 0 <= j < rest.len() && #[trigger] rest[j].name == name;
            assert(incoming[j].name == name);
        }
        if incoming.last().name == name {
            assert(incoming[incoming.len() - 1].name == name);
        }
        if has_name(incoming, name) {
            let j = choose|j: int| 0 <= j < incoming.len() && #[trigger] incoming[j].name == name;
            if j < rest.len() {
                assert(rest[j].name == name);
            }
        }
    }
}

/// Where no two stored tasks share a name, no two tasks share one after a
/// merge, whatever is saved.
pub proof fn lemma_merge_keeps_names_distinct(stored: Seq<TaskView>, incoming: Seq<TaskView>)
    requires
        distinct_names(stored),
    ensures
        distinct_names(merged(stored, incoming)),
    decreases incoming.len(),
{
    if incoming.len() > 0 {
        let before = merged(stored, incoming.drop_last());
        let task = incoming.last();
        lemma_merge_keeps_names_distinct(stored, incoming.drop_last());
        lemma_upsert(before, task);
        let after = upsert(before, task);
        assert forall|i: int, j: int| 0 <= i < j < after.len() implies #[trigger] after[i].name
            != #[trigger] after[j].name by {
            if j < before.len() {
                assert(before[i].name != before[j].name);
            } else {
                assert(after[j] == task);
                assert(before[i].name == before[i].name);
            }
        }
    }
}

/// Saving one task under a name that is not stored adds it after the
/// stored tasks.
pub proof fn lemma_merge_adds_new_name(stored: Seq<TaskView>, task: TaskView)
    requires
        !has_name(stored, task.name),
    ensures
        merged(stored, seq![task]) == stored.push(task),
{
    let incoming = seq![task];
    assert(incoming.drop_last() =~= Seq::<TaskView>::empty());
    assert(merged(stored, incoming.drop_last()) == stored);
}

/// Saving one task under a stored name puts it in the place of the first
/// stored task of that name and changes nothing else.
pub proof fn lemma_merge_replaces_known_name(stored: Seq<TaskView>, task: TaskView, i: int)
    requires
        is_first_named(stored, task.name, i),
    ensures
        merged(stored, seq![task]) == stored.update(i, task),
{
    let incoming = seq![task];
    assert(incoming.drop_last() =~= Seq::<TaskView>::empty());
    assert(merged(stored, incoming.drop_last()) == stored);
    lemma_position(stored, task.name, i);
}

/// Saving tasks of different names where nothing is stored stores exactly
/// those tasks, in their order.
pub proof fn lemma_merge_into_nothing(incoming: Seq<TaskView>)
    requires
        distinct_names(incoming),
    ensures
        merged(Seq::empty(), incoming) == incoming,
    decreases incoming.len(),
{
    if incoming.len() > 0 {
        let rest = incoming.drop_last();
        let task = incoming.last();
        assert(distinct_names(rest)) by {
            assert forall|i: int, j: int| 0 <= i < j < rest.len() implies #[trigger] rest[i].name
                != #[trigger] rest[j].name by {
                assert(incoming[i].name != incoming[j].name);
            }
        }
        lemma_merge_into_nothing(rest);
        assert(!has_name(rest, task.name)) by {
            if has_name(rest, task.name) {
                let j = choose|j: int| 0 <= j < rest.len() && #[trigger] rest[j].name == task.name;
                assert(incoming[j].name != incoming[incoming.len() - 1].name);
            }
        }
        assert(rest.push(task) =~= incoming);
    } else {
        assert(incoming =~= Seq::<TaskView>::empty());
    }
}

/// The last task of a name that occurs in a list.
pub proof fn lemma_last_position(tasks: Seq<TaskView>, name: Seq<char>)
    ensures
        has_name(tasks, name) ==> 0 <= last_position(tasks, name) < tasks.len()
            && tasks[last_position(tasks, name)].name == name,
        !has_name(tasks, name) ==> last_position(tasks, name) == -1,
        forall|j: int|
            last_position(tasks, name) < j < tasks.len() ==> (#[trigger] tasks[j]).name != name,
    decreases tasks.len(),
{
    if tasks.len() > 0 {
        let rest = tasks.drop_last();
        lemma_last_position(rest, name);
        if tasks.last().name == name {
            assert(tasks[tasks.len() - 1].name == name);
        } else {
            if has_name(tasks, name) {
                let j = choose|j: int| 0 <= j < tasks.len() && #[trigger] tasks[j].name == name;
                assert(rest[j].name == name);
            }
            if has_name(rest, name) {
                let j = choose|j: int| 0 <= j < rest.len() && #[trigger] rest[j].name == name;
                assert(tasks[j].name == name);
            }
            assert forall|j: int| last_position(tasks, name) < j < tasks.len() implies (
            #[trigger] tasks[j]).name != name by {
                if j < rest.len() {
                    assert(rest[j].name != name);
                }
            }
        }
    }
}

/// After a merge every name of the save is stored, and the task at the
/// first position of that name is the last task that the save holds under it.
pub proof fn lemma_merge_stores_saved(
    stored: Seq<TaskView>,
    incoming: Seq<TaskView>,
    name: Seq<char>,
)
    requires
        has_name(incoming, name),
    ensures
        has_name(merged(stored, incoming), name),
        merged(stored, incoming)[position(merged(stored, incoming), name)]
            == incoming[last_position(incoming, name)],
    decreases incoming.len(),
{
    let rest = incoming.drop_last();
    let task = incoming.last();
    let before = merged(stored, rest);
    lemma_upsert(before, task);
    if task.name != name {
        let j = choose|j: int| 0 <= j < incoming.len() && #[trigger] incoming[j].name == name;
        assert(rest[j].name == name);
        lemma_merge_stores_saved(stored, rest, name);
        lemma_upsert_other_name(before, task, name);
        lemma_last_position(rest, name);
    }
}

/// A stored list in which every name of `saved` occurs, after the tasks of
/// `saved` have been written over it: at the first position of each such
/// name stands the last task that `saved` holds under it.
pub open spec fn overwritten(stored: Seq<TaskView>, saved: Seq<TaskView>) -> Seq<TaskView> {
    Seq::new(
        stored.len(),
        |i: int|
            if has_name(saved, stored[i].name) && is_first_named(stored, stored[i].name, i) {
                saved[last_position(saved, stored[i].name)]
            } else {
                stored[i]
            },
    )
}

/// A save whose names are all stored adds nothing: it writes its tasks over
/// the stored ones.
pub proof fn lemma_merge_of_known_names(stored: Seq<TaskView>, incoming: Seq<TaskView>)
    requires
        forall|j: int| 0 <= j < incoming.len() ==> has_name(stored, #[trigger] incoming[j].name),
    ensures
        merged(stored, incoming) == overwritten(stored, incoming),
    decreases incoming.len(),
{
    if incoming.len() == 0 {
        assert forall|i: int| 0 <= i < stored.len() implies overwritten(stored, incoming)[i]
            == stored[i] by {
            lemma_last_position(incoming, stored[i].name);
            if has_name(incoming, stored[i].name) {
                let j = choose|j: int|
                    0 <= j < incoming.len() && #[trigger] incoming[j].name == stored[i].name;
            }
        }
        assert(overwritten(stored, incoming) =~= stored);
    } else {
        let rest = incoming.drop_last();
        let task = incoming.last();
        assert forall|j: int| 0 <= j < rest.len() implies has_name(
            stored,
            #[trigger] rest[j].name,
        ) by {
            assert(rest[j].name == incoming[j].name);
        }
        lemma_merge_of_known_names(stored, rest);
        let before = overwritten(stored, rest);
        assert(has_name(stored, incoming[incoming.len() - 1].name));
        lemma_position_of_known(stored, task.name);
        let p = position(stored, task.name);
        assert(before[p].name == task.name) by {
            lemma_last_position(rest, task.name);
        }
        assert(is_first_named(before, task.name, p)) by {
            assert forall|j: int| 0 <= j < p implies before[j].name != task.name by {
                lemma_last_position(rest, stored[j].name);
            }
        }
        lemma_position(before, task.name, p);
        let after = before.update(p, task);
        assert(merged(stored, incoming) == after);
        assert forall|i: int| 0 <= i < stored.len() implies after[i] == overwritten(
            stored,
            incoming,
        )[i] by {
            let name = stored[i].name;
            lemma_last_position(incoming, name);
            lemma_last_position(rest, name);
            if name == task.name {
                assert(incoming[incoming.len() - 1].name == name);
                if i != p {
                    lemma_position(stored, name, i);
                }
            } else {
                if has_name(incoming, name) {
                    let j = choose|j: int|
                        0 <= j < incoming.len() && #[trigger] incoming[j].name == name;
                    assert(rest[j].name == name);
                }
                if has_name(rest, name) {
                    let j = choose|j: int| 0 <= j < rest.len() && #[trigger] rest[j].name == name;
                    assert(incoming[j].name == name);
                }
            }
        }
        assert(after =~= overwritten(stored, incoming));
    }
}

/// Saving the same tasks a second time changes nothing: what the first
/// save stored is what the second one stores.
pub proof fn lemma_merge_twice(stored: Seq<TaskView>, incoming: Seq<TaskView>)
    ensures
        merged(merged(stored, incoming), incoming) == merged(stored, incoming),
{
    let once = merged(stored, incoming);
    assert forall|j: int| 0 <= j < incoming.len() implies has_name(
        once,
        #[trigger] incoming[j].name,
    ) by {
        lemma_merge_stores_saved(stored, incoming, incoming[j].name);
    }
    lemma_merge_of_known_names(once, incoming);
    assert forall|i: int| 0 <= i < once.len() implies overwritten(once, incoming)[i]
        == once[i] by {
        let name = once[i].name;
        if has_name(incoming, name) && is_first_named(once, name, i) {
            lemma_merge_stores_saved(stored, incoming, name);
            lemma_position(once, name, i);
        }
    }
    assert(overwritten(once, incoming) =~= once);
}

} // verus!
