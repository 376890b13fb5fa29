//! Properties that relate several operations on the collection.

use vstd::prelude::*;

use crate::store::{has_id, without_id};
use crate::task::{patched, Task, TaskStatus, UpdateTaskInput};

verus! {

/// Ids handed out by successive creations are pairwise distinct. Each
/// creation appends a task whose id no task of the collection before it
/// carries (what `create_task` ensures), so
/// `states[k]` is the collection before the `k`-th creation and `created[k]`
/// the task it made.
pub proof fn created_ids_pairwise_distinct(states: Seq<Seq<Task>>, created: Seq<Task>)
    requires
        states.len() == created.len() + 1,
        forall|k: int|
            0 <= k < created.len() ==> !has_id(#[trigger] states[k], created[k].id@)
                && states[k + 1] == states[k].push(created[k]),
    ensures
        forall|a: int, b: int|
            0 <= a < b < created.len() ==> (#[trigger] created[a]).id@ != (#[trigger] created[b]).id@,
{
    assert forall|a: int, b: int| 0 <= a < b < created.len() implies (#[trigger] created[a]).id@
        != (#[trigger] created[b]).id@ by {
        lemma_creations_keep_prefix(states, created, a + 1, b);
        let pos = states[a].len() as int;
        assert(states[a + 1][pos] == created[a]);
        assert(states[b][pos] == states[a + 1][pos]);
        assert(0 <= pos < states[b].len());
        assert(has_id(states[b], created[a].id@));
    }
}

/// A later collection in a run of creations starts with every earlier one.
proof fn lemma_creations_keep_prefix(states: Seq<Seq<Task>>, created: Seq<Task>, k: int, m: int)
    requires
        states.len() == created.len() + 1,
        forall|k: int|
            0 <= k < created.len() ==> !has_id(#[trigger] states[k], created[k].id@)
                && states[k + 1] == states[k].push(created[k]),
        0 <= k <= m < states.len(),
    ensures
        states[k].len() <= states[m].len(),
        states[m].subrange(0, states[k].len() as int) == states[k],
    decreases m - k,
{
    if k < m {
        lemma_creations_keep_prefix(states, created, k, m - 1);
        assert(states[m] == states[m - 1].push(created[m - 1]));
        assert(states[m].subrange(0, states[k].len() as int) == states[m - 1].subrange(
            0,
            states[k].len() as int,
        ));
    } else {
        assert(states[m].subrange(0, states[m].len() as int) == states[m]);
    }
}

/// A patch that supplies only a status changes the status and nothing else:
/// title, description, priority, due date, id and creation time are kept.
pub proof fn status_patch_keeps_other_fields(task: Task, status: TaskStatus)
    ensures
        ({
            let p = patched(
                task,
                UpdateTaskInput {
                    title: None,
                    description: None,
                    status: Some(status),
                    priority: None,
                    due_date: None,
                },
            );
            &&& p.status == status
            &&& p.id == task.id
            &&& p.title == task.title
            &&& p.description == task.description
            &&& p.priority == task.priority
            &&& p.created_at == task.created_at
            &&& p.due_date == task.due_date
        }),
{
}

/// Deleting an id a second time changes nothing: the collection after the
/// second deletion is the one after the first.
pub proof fn delete_twice_same_as_once(tasks: Seq<Task>, id: Seq<char>)
    ensures
        without_id(without_id(tasks, id), id) == without_id(tasks, id),
    decreases tasks.len(),
{
    reveal(Seq::filter);
    if tasks.len() > 0 {
        let rest = tasks.drop_last();
        delete_twice_same_as_once(rest, id);
        let f = without_id(rest, id);
        if tasks.last().id@ != id {
            assert(f.push(tasks.last()).drop_last() == f);
        }
    }
}

} // verus!
