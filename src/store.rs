//! The collection operations: list, create, update and delete, each stated
//! over the collection as a sequence of tasks in insertion order.

use vstd::prelude::*;
use vstd::string::{StrSliceExecFns, StringExecFns};

use crate::fresh::{new_task_id, now_rfc3339};
use crate::task::{new_task_spec, patched, CreateTaskInput, Task, UpdateTaskInput};

verus! {

/// How many uuids creation draws, at most, in search of one that the
/// collection does not already hold.
pub const ID_DRAWS: usize = 4;

/// Some task of `tasks` carries `id`.
pub open spec fn has_id(tasks: Seq<Task>, id: Seq<char>) -> bool {
    exists|i: int| 0 <= i < tasks.len() && (#[trigger] tasks[i]).id@ == id
}

/// No two tasks of `tasks` carry the same id.
pub open spec fn ids_unique(tasks: Seq<Task>) -> bool {
    forall|i: int, j: int|
        0 <= i < j < tasks.len() ==> (#[trigger] tasks[i]).id@ != (#[trigger] tasks[j]).id@
}

/// `i` is the position of the first task of `tasks` that carries `id`.
pub open spec fn is_first_with_id(tasks: Seq<Task>, id: Seq<char>, i: int) -> bool {
    &&& 0 <= i < tasks.len()
    &&& tasks[i].id@ == id
    &&& forall|j: int| 0 <= j < i ==> (#[trigger] tasks[j]).id@ != id
}

/// `tasks` without the tasks that carry `id`, the others kept in order.
pub open spec fn without_id(tasks: Seq<Task>, id: Seq<char>) -> Seq<Task> {
    tasks.filter(|t: Task| t.id@ != id)
}

/// What was found where the collection is kept.
pub enum StoredTasks {
    /// No collection has been written yet.
    Missing,
    /// The stored collection could not be read.
    Unreadable,
    /// The stored collection was read but does not parse as tasks.
    Malformed,
    /// The stored collection, parsed.
    Parsed(Vec<Task>),
}

/// The collection that the store holds: a missing, unreadable or malformed
/// store counts as an empty collection.
pub fn load_tasks(stored: StoredTasks) -> (r: Vec<Task>)
    ensures
        r@ == match stored {
            StoredTasks::Parsed(v) => v@,
            _ => Seq::<Task>::empty(),
        },
{
    match stored {
        StoredTasks::Parsed(v) => v,
        _ => Vec::new(),
    }
}

/// The position of the first task that carries `id`, if any does.
pub fn position_of(tasks: &Vec<Task>, id: &String) -> (r: Option<usize>)
    ensures
        match r {
            Some(i) => is_first_with_id(tasks@, id@, i as int),
            None => !has_id(tasks@, id@),
        },
{
    let mut i: usize = 0;
    while i < tasks.len()
        invariant
            i <= tasks@.len(),
            forall|j: int| 0 <= j < i ==> (#[trigger] tasks@[j]).id@ != id@,
        decreases tasks@.len() - i,
    {
        if tasks[i].id == *id {
            return Some(i);
        }
        i = i + 1;
    }
    None
}

/// Appends the task made from `input` with an id that no task carries yet.
fn append_fresh(
    tasks: &mut Vec<Task>,
    input: CreateTaskInput,
    id: String,
    created_at: String,
) -> (t: Task)
    requires
        !has_id(old(tasks)@, id@),
    ensures
        t == new_task_spec(input, id, created_at),
        final(tasks)@ == old(tasks)@.push(t),
        ids_unique(old(tasks)@) ==> ids_unique(final(tasks)@),
{
    let t = Task::new(input, id, created_at);
    tasks.push(t.clone());
    proof {
        let s = tasks@;
        assert forall|i: int, j: int| 0 <= i < j < s.len() && ids_unique(old(tasks)@) implies (
        #[trigger] s[i]).id@ != (#[trigger] s[j]).id@ by {
            if j == s.len() - 1 {
                assert(old(tasks)@[i] == s[i]);
            }
        }
    }
    t
}

/// Appends the task made from `input` with the given id and creation time,
/// unless some task already carries that id.
pub fn insert_new_task(
    tasks: &mut Vec<Task>,
    input: CreateTaskInput,
    id: String,
    created_at: String,
) -> (r: Option<Task>)
    ensures
        match r {
            Some(t) => {
                &&& !has_id(old(tasks)@, id@)
                &&& t == new_task_spec(input, id, created_at)
                &&& final(tasks)@ == old(tasks)@.push(t)
            },
            None => has_id(old(tasks)@, id@) && final(tasks)@ == old(tasks)@,
        },
        ids_unique(old(tasks)@) ==> ids_unique(final(tasks)@),
{
    match position_of(tasks, &id) {
        Some(_) => None,
        None => Some(append_fresh(tasks, input, id, created_at)),
    }
}

/// `base` extended so that no task of `tasks` carries it: for the `k`-th
/// task one character is added that differs from that task's id at the same
/// position (or `a` where its id is shorter), then a final `a`. The result
/// is longer than `base` by one more than the number of tasks.
pub fn id_unlike_any(tasks: &Vec<Task>, base: String) -> (r: String)
    ensures
        !has_id(tasks@, r@),
        r@.len() == base@.len() + tasks@.len() + 1,
        r@.subrange(0, base@.len() as int) == base@,
{
    let base_len = base.as_str().unicode_len();
    let ghost b = base@;
    let mut r = base;
    let mut k: usize = 0;
    while k < tasks.len()
        invariant
            k <= tasks@.len(),
            b.len() == base_len,
            r@.len() == base_len + k,
            r@.subrange(0, base_len as int) == b,
            forall|j: int|
                0 <= j < k && base_len + j < (#[trigger] tasks@[j]).id@.len() ==> r@[base_len + j]
                    != tasks@[j].id@[base_len + j],
        decreases tasks@.len() - k,
    {
        let other = tasks[k].id.as_str();
        let other_len = other.unicode_len();
        let mut flip = false;
        if let Some(p) = base_len.checked_add(k) {
            if p < other_len && other.get_char(p) == 'a' {
                flip = true;
            }
        }
        let ghost before = r@;
        if flip {
            r.append("b");
        } else {
            r.append("a");
        }
        proof {
            reveal_strlit("a");
            reveal_strlit("b");
            assert(r@.len() == before.len() + 1);
            assert(r@.subrange(0, base_len as int) == before.subrange(0, base_len as int));
            assert(r@[base_len + k] == if flip { 'b' } else { 'a' });
            assert forall|j: int|
                0 <= j < k + 1 && base_len + j < (#[trigger] tasks@[j]).id@.len() implies r@[base_len
                + j] != tasks@[j].id@[base_len + j] by {
                if j < k {
                    assert(r@[base_len + j] == before[base_len + j]);
                }
            }
        }
        k = k + 1;
    }
    let ghost before = r@;
    r.append("a");
    proof {
        reveal_strlit("a");
        assert(r@.subrange(0, base_len as int) == before.subrange(0, base_len as int));
        assert forall|j: int| 0 <= j < tasks@.len() implies (#[trigger] tasks@[j]).id@ != r@ by {
            if base_len + j < tasks@[j].id@.len() {
                assert(r@[base_len + j] == before[base_len + j]);
            }
        }
    }
    r
}

/// Creates a task from `input`: a fresh id, status `Todo`, the current time
/// as its creation time, and the supplied fields; appends it and returns it.
/// The id is a random uuid; a drawn uuid that the collection already holds is
/// never used. Where `ID_DRAWS` draws in a row are all taken, the last one is
/// extended by `id_unlike_any`, so creation always succeeds.
pub fn create_task(tasks: &mut Vec<Task>, input: CreateTaskInput) -> (t: Task)
    ensures
        !has_id(old(tasks)@, t.id@),
        t.id@.len() >= 36,
        (forall|i: int| 0 <= i < old(tasks)@.len() ==> (#[trigger] old(tasks)@[i]).id@.len() != 36)
            ==> t.id@.len() == 36,
        t.created_at@.len() >= 25,
        t == new_task_spec(input, t.id, t.created_at),
        final(tasks)@ == old(tasks)@.push(t),
        ids_unique(old(tasks)@) ==> ids_unique(final(tasks)@),
{
    let mut id = new_task_id();
    let mut taken = position_of(tasks, &id).is_some();
    let mut n: usize = 1;
    while taken && n < ID_DRAWS
        invariant
            1 <= n <= ID_DRAWS,
            id@.len() == 36,
            taken == has_id(tasks@, id@),
            (forall|i: int| 0 <= i < tasks@.len() ==> (#[trigger] tasks@[i]).id@.len() != 36)
                ==> !taken,
        decreases ID_DRAWS - n,
    {
        id = new_task_id();
        taken = position_of(tasks, &id).is_some();
        n = n + 1;
    }
    if taken {
        id = id_unlike_any(tasks, id);
    }
    let created_at = now_rfc3339();
    append_fresh(tasks, input, id, created_at)
}

/// Applies `patch` to the first task that carries `id` and returns the
/// patched task; where no task carries `id`, nothing changes and `None` comes
/// back.
pub fn update_task(tasks: &mut Vec<Task>, id: &String, patch: UpdateTaskInput) -> (r: Option<Task>)
    ensures
        match r {
            Some(t) => exists|i: int|
                {
                    &&& is_first_with_id(old(tasks)@, id@, i)
                    &&& t == patched(old(tasks)@[i], patch)
                    &&& final(tasks)@ == old(tasks)@.update(i, t)
                },
            None => !has_id(old(tasks)@, id@) && final(tasks)@ == old(tasks)@,
        },
        ids_unique(old(tasks)@) ==> ids_unique(final(tasks)@),
{
    match position_of(tasks, id) {
        None => None,
        Some(i) => {
            let t = tasks[i].clone();
            let u = t.apply_patch(patch);
            tasks[i] = u.clone();
            proof {
                let s = tasks@;
                assert forall|a: int, b: int| 0 <= a < b < s.len() && ids_unique(old(tasks)@)
                    implies (#[trigger] s[a]).id@ != (#[trigger] s[b]).id@ by {
                    assert(s[a].id == old(tasks)@[a].id);
                    assert(s[b].id == old(tasks)@[b].id);
                }
            }
            Some(u)
        },
    }
}

/// Removes every task that carries `id`, keeping the others in order.
pub fn delete_task(tasks: &mut Vec<Task>, id: &String)
    ensures
        final(tasks)@ == without_id(old(tasks)@, id@),
        ids_unique(old(tasks)@) ==> ids_unique(final(tasks)@),
{
    let mut kept: Vec<Task> = Vec::new();
    let mut i: usize = 0;
    while i < tasks.len()
        invariant
            i <= tasks@.len(),
            kept@ == without_id(tasks@.subrange(0, i as int), id@),
        decreases tasks@.len() - i,
    {
        proof {
            assert(tasks@.subrange(0, i as int + 1) == tasks@.subrange(0, i as int).push(
                tasks@[i as int],
            ));
            lemma_without_id_push(tasks@.subrange(0, i as int), tasks@[i as int], id@);
        }
        if tasks[i].id != *id {
            kept.push(tasks[i].clone());
        }
        i = i + 1;
    }
    proof {
        assert(tasks@.subrange(0, tasks@.len() as int) == tasks@);
        lemma_without_id_keeps_unique(tasks@, id@);
    }
    *tasks = kept;
}

/// Removing an id from a collection with one more task at its end.
proof fn lemma_without_id_push(tasks: Seq<Task>, t: Task, id: Seq<char>)
    ensures
        without_id(tasks.push(t), id) == if t.id@ != id {
            without_id(tasks, id).push(t)
        } else {
            without_id(tasks, id)
        },
{
    reveal(Seq::filter);
    assert(tasks.push(t).drop_last() == tasks);
}

/// Removing the tasks that carry an id keeps the others' ids distinct.
proof fn lemma_without_id_keeps_unique(tasks: Seq<Task>, id: Seq<char>)
    ensures
        ids_unique(tasks) ==> ids_unique(without_id(tasks, id)),
        forall|k: int| 0 <= k < without_id(tasks, id).len()
            ==> has_id(tasks, (#[trigger] without_id(tasks, id)[k]).id@),
    decreases tasks.len(),
{
    if tasks.len() > 0 {
        let rest = tasks.drop_last();
        lemma_without_id_keeps_unique(rest, id);
        assert(rest.push(tasks.last()) == tasks);
        lemma_without_id_push(rest, tasks.last(), id);
        let f = without_id(rest, id);
        let w = without_id(tasks, id);
        assert forall|k: int| 0 <= k < f.len() implies has_id(tasks, (#[trigger] f[k]).id@) by {
            let j = choose|j: int| 0 <= j < rest.len() && (#[trigger] rest[j]).id@ == f[k].id@;
            assert(tasks[j] == rest[j]);
        }
        assert(tasks[tasks.len() - 1] == tasks.last());
        if ids_unique(tasks) {
            assert(ids_unique(rest)) by {
                assert forall|a: int, b: int| 0 <= a < b < rest.len()
                    implies (#[trigger] rest[a]).id@ != (#[trigger] rest[b]).id@ by {
                    assert(rest[a] == tasks[a] && rest[b] == tasks[b]);
                }
            }
            assert forall|k: int| 0 <= k < f.len() implies (#[trigger] f[k]).id@ != tasks.last().id@ by {
                let j = choose|j: int| 0 <= j < rest.len() && (#[trigger] rest[j]).id@ == f[k].id@;
                assert(rest[j] == tasks[j]);
            }
        }
    }
}

} // verus!
