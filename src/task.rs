use vstd::prelude::*;

use crate::clock::now_rfc3339;

verus! {

/// Where a task stands.
#[derive(Clone, Copy, PartialEq, Eq, Structural, Debug)]
pub enum Status {
    Done,
    Todo,
    InProgress,
}

/// One to-do item.
#[derive(Clone, Debug)]
pub struct Task {
    pub id: u16,
    pub description: Option<String>,
    pub status: Status,
    pub created_at: String,
    pub updated_at: String,
}

/// The task that `add` appends: the given id and description, `Todo`, both
/// timestamps set to `now`.
pub open spec fn new_task(id: u16, description: String, now: String) -> Task {
    Task { id, description: Some(description), status: Status::Todo, created_at: now, updated_at: now }
}

/// Whether some task of the collection carries `id`.
pub open spec fn has_id(tasks: Seq<Task>, id: u16) -> bool {
    exists|i: int| 0 <= i < tasks.len() && #[trigger] tasks[i].id == id
}

/// Every task carrying `id` gets the description `d` and the timestamp `now`.
pub open spec fn described(tasks: Seq<Task>, id: u16, d: String, now: String) -> Seq<Task> {
    tasks.map_values(
        |t: Task|
            if t.id == id {
                Task { description: Some(d), updated_at: now, ..t }
            } else {
                t
            },
    )
}

/// Every task carrying `id` gets the status `s` and the timestamp `now`.
pub open spec fn marked(tasks: Seq<Task>, id: u16, s: Status, now: String) -> Seq<Task> {
    tasks.map_values(
        |t: Task|
            if t.id == id {
                Task { status: s, updated_at: now, ..t }
            } else {
                t
            },
    )
}

/// The collection without the tasks that carry `id`, order kept.
pub open spec fn without_id(tasks: Seq<Task>, id: u16) -> Seq<Task> {
    tasks.filter(|t: Task| t.id != id)
}

/// How a filter word reads: "done" and "todo" name their status, any other
/// word stands for `InProgress`.
pub open spec fn filter_status(word: Seq<char>) -> Status {
    if word == "done"@ {
        Status::Done
    } else if word == "todo"@ {
        Status::Todo
    } else {
        Status::InProgress
    }
}

/// The tasks that a listing shows: all of them, or those of one status.
pub open spec fn listed(tasks: Seq<Task>, filter: Option<Status>) -> Seq<Task> {
    match filter {
        Some(s) => tasks.filter(|t: Task| t.status == s),
        None => tasks,
    }
}

fn copy_task(t: &Task) -> (r: Task)
    ensures
        r == *t,
{
    let description = match &t.description {
        Some(d) => Some(d.clone()),
        None => None,
    };
    Task {
        id: t.id,
        description,
        status: t.status,
        created_at: t.created_at.clone(),
        updated_at: t.updated_at.clone(),
    }
}

/// Appends a `Todo` task with id one past the current length, stamped `now`.
pub fn add_task_at(tasks: &mut Vec<Task>, description: String, now: String)
    requires
        old(tasks)@.len() < u16::MAX,
    ensures
        final(tasks)@ == old(tasks)@.push(new_task((old(tasks)@.len() + 1) as u16, description, now)),
        final(tasks)@.len() == old(tasks)@.len() + 1,
        final(tasks)@.last().id == old(tasks)@.len() + 1,
{
    let id: u16 = tasks.len() as u16 + 1;
    let task = Task {
        id,
        description: Some(description),
        status: Status::Todo,
        created_at: now.clone(),
        updated_at: now,
    };
    tasks.push(task);
}

/// Appends a `Todo` task with id one past the current length, stamped with
/// the current local time.
pub fn add_task(tasks: &mut Vec<Task>, description: String)
    requires
        old(tasks)@.len() < u16::MAX,
    ensures
        exists|now: String|
            final(tasks)@ == old(tasks)@.push(
                #[trigger] new_task((old(tasks)@.len() + 1) as u16, description, now),
            ),
        final(tasks)@.len() == old(tasks)@.len() + 1,
        final(tasks)@.last().id == old(tasks)@.len() + 1,
{
    let now = now_rfc3339();
    let ghost stamp = now;
    add_task_at(tasks, description, now);
    assert(tasks@ == old(tasks)@.push(new_task((old(tasks)@.len() + 1) as u16, description, stamp)));
}

fn set_status(tasks: &mut Vec<Task>, id: u16, status: Status, now: String)
    ensures
        final(tasks)@ == marked(old(tasks)@, id, status, now),
        !has_id(old(tasks)@, id) ==> final(tasks)@ == old(tasks)@,
{
    let ghost pre = tasks@;
    let n = tasks.len();
    let mut i: usize = 0;
    while i < n
        invariant
            n == pre.len(),
            tasks@.len() == n,
            0 <= i <= n,
            forall|j: int| 0 <= j < i ==> tasks@[j] == marked(pre, id, status, now)[j],
            forall|j: int| i <= j < n ==> tasks@[j] == pre[j],
        decreases n - i,
    {
        if tasks[i].id == id {
            let t = copy_task(&tasks[i]);
            tasks.set(i, Task { status, updated_at: now.clone(), ..t });
        }
        i = i + 1;
    }
    proof {
        assert(tasks@ =~= marked(pre, id, status, now));
        if !has_id(pre, id) {
            assert(tasks@ =~= pre);
        }
    }
}

/// Gives every task carrying `id` the description `description` and the
/// timestamp `now`; no task carries it: nothing changes.
pub fn update_task_at(tasks: &mut Vec<Task>, id: u16, description: String, now: String)
    ensures
        final(tasks)@ == described(old(tasks)@, id, description, now),
        !has_id(old(tasks)@, id) ==> final(tasks)@ == old(tasks)@,
{
    let ghost pre = tasks@;
    let n = tasks.len();
    let mut i: usize = 0;
    while i < n
        invariant
            n == pre.len(),
            tasks@.len() == n,
            0 <= i <= n,
            forall|j: int| 0 <= j < i ==> tasks@[j] == described(pre, id, description, now)[j],
            forall|j: int| i <= j < n ==> tasks@[j] == pre[j],
        decreases n - i,
    {
        if tasks[i].id == id {
            let t = copy_task(&tasks[i]);
            tasks.set(i, Task { description: Some(description.clone()), updated_at: now.clone(), ..t });
        }
        i = i + 1;
    }
    proof {
        assert(tasks@ =~= described(pre, id, description, now));
        if !has_id(pre, id) {
            assert(tasks@ =~= pre);
        }
    }
}

/// Gives every task carrying `id` the description `description`, stamped
/// with the current local time; no task carries it: nothing changes.
pub fn update_task(tasks: &mut Vec<Task>, id: u16, description: String)
    ensures
        exists|now: String| final(tasks)@ == #[trigger] described(old(tasks)@, id, description, now),
        !has_id(old(tasks)@, id) ==> final(tasks)@ == old(tasks)@,
{
    let now = now_rfc3339();
    let ghost stamp = now;
    update_task_at(tasks, id, description, now);
    assert(tasks@ == described(old(tasks)@, id, description, stamp));
}

/// Sets every task carrying `id` to `InProgress`, stamped `now`; no task
/// carries it: nothing changes.
pub fn mark_in_progress_at(tasks: &mut Vec<Task>, id: u16, now: String)
    ensures
        final(tasks)@ == marked(old(tasks)@, id, Status::InProgress, now),
        !has_id(old(tasks)@, id) ==> final(tasks)@ == old(tasks)@,
{
    set_status(tasks, id, Status::InProgress, now);
}

/// Sets every task carrying `id` to `InProgress`, stamped with the current
/// local time; no task carries it: nothing changes.
pub fn mark_in_progress(tasks: &mut Vec<Task>, id: u16)
    ensures
        exists|now: String|
            final(tasks)@ == #[trigger] marked(old(tasks)@, id, Status::InProgress, now),
        !has_id(old(tasks)@, id) ==> final(tasks)@ == old(tasks)@,
{
    let now = now_rfc3339();
    let ghost stamp = now;
    set_status(tasks, id, Status::InProgress, now);
    assert(tasks@ == marked(old(tasks)@, id, Status::InProgress, stamp));
}

/// Sets every task carrying `id` to `Done`, stamped `now`; no task carries
/// it: nothing changes.
pub fn mark_done_at(tasks: &mut Vec<Task>, id: u16, now: String)
    ensures
        final(tasks)@ == marked(old(tasks)@, id, Status::Done, now),
        !has_id(old(tasks)@, id) ==> final(tasks)@ == old(tasks)@,
{
    set_status(tasks, id, Status::Done, now);
}

/// Sets every task carrying `id` to `Done`, stamped with the current local
/// time; no task carries it: nothing changes.
pub fn mark_done(tasks: &mut Vec<Task>, id: u16)
    ensures
        exists|now: String| final(tasks)@ == #[trigger] marked(old(tasks)@, id, Status::Done, now),
        !has_id(old(tasks)@, id) ==> final(tasks)@ == old(tasks)@,
{
    let now = now_rfc3339();
    let ghost stamp = now;
    set_status(tasks, id, Status::Done, now);
    assert(tasks@ == marked(old(tasks)@, id, Status::Done, stamp));
}

/// Removes every task carrying `id`, keeping the order of the rest; no task
/// carries it: nothing changes.
pub fn delete_task(tasks: &mut Vec<Task>, id: u16)
    ensures
        final(tasks)@ == without_id(old(tasks)@, id),
        !has_id(old(tasks)@, id) ==> final(tasks)@ == old(tasks)@,
{
    let ghost pre = tasks@;
    let ghost keep = |t: Task| t.id != id;
    let mut kept: Vec<Task> = Vec::new();
    let n = tasks.len();
    let mut i: usize = 0;
    while i < n
        invariant
            n == pre.len(),
            tasks@ == pre,
            keep == (|t: Task| t.id != id),
            0 <= i <= n,
            kept@ == pre.take(i as int).filter(keep),
            !has_id(pre, id) ==> kept@ == pre.take(i as int),
        decreases n - i,
    {
        proof {
            reveal(Seq::filter);
            assert(pre.take(i + 1).drop_last() =~= pre.take(i as int));
            assert(pre.take(i as int).push(pre[i as int]) =~= pre.take(i + 1));
            assert(keep(pre[i as int]) == (pre[i as int].id != id));
            assert(pre.take(i + 1).filter(keep) == if keep(pre[i as int]) {
                pre.take(i as int).filter(keep).push(pre[i as int])
            } else {
                pre.take(i as int).filter(keep)
            });
        }
        if tasks[i].id != id {
            kept.push(copy_task(&tasks[i]));
        }
        i = i + 1;
    }
    proof {
        assert(pre.take(n as int) =~= pre);
    }
    *tasks = kept;
}

/// The status that a filter word names: "done" and "todo" name their own,
/// any other word stands for `InProgress`.
pub fn status_filter(word: &String) -> (r: Status)
    ensures
        r == filter_status(word@),
{
    let done = "done".to_owned();
    let todo = "todo".to_owned();
    if *word == done {
        Status::Done
    } else if *word == todo {
        Status::Todo
    } else {
        Status::InProgress
    }
}

/// The tasks to show, in collection order: all of them without a filter
/// word, else those whose status the word names.
pub fn list_tasks(tasks: &Vec<Task>, maybe_status: Option<&String>) -> (r: Vec<Task>)
    ensures
        r@ == listed(
            tasks@,
            match maybe_status {
                Some(w) => Some(filter_status(w@)),
                None => None,
            },
        ),
{
    let filter: Option<Status> = match maybe_status {
        Some(w) => Some(status_filter(w)),
        None => None,
    };
    let ghost shown = |t: Task| t.status == filter.unwrap();
    let mut r: Vec<Task> = Vec::new();
    let n = tasks.len();
    let mut i: usize = 0;
    while i < n
        invariant
            n == tasks@.len(),
            shown == (|t: Task| t.status == filter.unwrap()),
            0 <= i <= n,
            filter is None ==> r@ == tasks@.take(i as int),
            filter is Some ==> r@ == tasks@.take(i as int).filter(shown),
        decreases n - i,
    {
        proof {
            reveal(Seq::filter);
            assert(tasks@.take(i + 1).drop_last() =~= tasks@.take(i as int));
            assert(tasks@.take(i as int).push(tasks@[i as int]) =~= tasks@.take(i + 1));
            if filter is Some {
                assert(shown(tasks@[i as int]) == (tasks@[i as int].status == filter.unwrap()));
                assert(tasks@.take(i + 1).filter(shown) == if shown(tasks@[i as int]) {
                    tasks@.take(i as int).filter(shown).push(tasks@[i as int])
                } else {
                    tasks@.take(i as int).filter(shown)
                });
            }
        }
        let keep = match filter {
            Some(s) => tasks[i].status == s,
            None => true,
        };
        if keep {
            r.push(copy_task(&tasks[i]));
        }
        i = i + 1;
    }
    proof {
        assert(tasks@.take(n as int) =~= tasks@);
    }
    r
}

/// After a task id is deleted, an unfiltered listing shows no task with it.
pub proof fn lemma_deleted_not_listed(tasks: Seq<Task>, id: u16)
    ensures
        forall|k: int|
            0 <= k < listed(without_id(tasks, id), None).len() ==> #[trigger] listed(
                without_id(tasks, id),
                None,
            )[k].id != id,
{
    broadcast use Seq::lemma_filter_pred;
}

} // verus!
