//! The task operations and their status state machine. A task is created
//! `Pending`, its status moves only through the explicit transition
//! operation, and the only validation there is membership in the three-value
//! enumeration — any enumerated status may follow any other, in any order.

use vstd::prelude::*;

use crate::errors::TaskError;
use crate::status::TaskStatus;
use crate::status::is_valid_status;
use crate::store;
use crate::store::tasks_of;

verus! {

/// One task row as callers see it.
#[derive(Clone, Debug)]
pub struct Task {
    pub id: i64,
    pub title: String,
    pub status: String,
}

/// Every status string stored in the tasks table is one of the three
/// canonical literals.
pub open spec fn statuses_canonical(tasks: Map<i64, (Seq<char>, Seq<char>)>) -> bool {
    forall|id: i64| #[trigger] tasks.contains_key(id) ==> is_valid_status(tasks[id].1)
}

/// Creates a task with the given title and status forced to `Pending`,
/// whatever the caller may have wanted: on success the returned id was not
/// in use and exactly the one new `(title, Pending)` row was added. Storage
/// failure is the only error, and then nothing changed. Canonical statuses
/// stay canonical.
pub fn add_task(c: &mut rusqlite::Connection, title: &str) -> (r: Result<i64, TaskError>)
    ensures
        r matches Ok(id) ==> !tasks_of(*old(c)).contains_key(id) && tasks_of(*final(c)) == tasks_of(
            *old(c),
        ).insert(id, (title@, TaskStatus::Pending.spec_str())),
        r is Err ==> tasks_of(*final(c)) == tasks_of(*old(c)) && r->Err_0 == TaskError::Storage,
        store::only_tasks_touched(*old(c), *final(c)),
        statuses_canonical(tasks_of(*old(c))) ==> statuses_canonical(tasks_of(*final(c))),
{
    let status = TaskStatus::Pending.as_str();
    match store::insert_task(c, title, status) {
        Ok(id) => {
            proof {
                crate::status::lemma_status_round_trip(TaskStatus::Pending);
            }
            Ok(id)
        },
        Err(_) => Err(TaskError::Storage),
    }
}

/// Writes the canonical string of `status` into the task's row. Membership
/// in the enumeration is already carried by the type, so this cannot fail
/// validation: on success an existing task's row keeps its title and holds
/// the new status, while an absent id changes nothing (storage does not
/// distinguish the two). Canonical statuses stay canonical.
pub fn set_task_status(c: &mut rusqlite::Connection, task_id: i64, status: TaskStatus) -> (r:
    Result<(), TaskError>)
    ensures
        r is Ok && tasks_of(*old(c)).contains_key(task_id) ==> tasks_of(*final(c)) == tasks_of(
            *old(c),
        ).insert(task_id, (tasks_of(*old(c))[task_id].0, status.spec_str())),
        r is Ok && !tasks_of(*old(c)).contains_key(task_id) ==> tasks_of(*final(c)) == tasks_of(
            *old(c),
        ),
        r is Err ==> tasks_of(*final(c)) == tasks_of(*old(c)) && r->Err_0 == TaskError::Storage,
        store::only_tasks_touched(*old(c), *final(c)),
        statuses_canonical(tasks_of(*old(c))) ==> statuses_canonical(tasks_of(*final(c))),
{
    proof {
        crate::status::lemma_status_round_trip(status);
    }
    match store::modify_task_status(c, task_id, status.as_str()) {
        Ok(_) => Ok(()),
        Err(_) => Err(TaskError::Storage),
    }
}

/// Validates the requested status string before touching storage:
/// `InvalidStatus` comes back exactly when the string is not one of the
/// three literals, and then nothing at all changed. A valid string is
/// written as `set_task_status` writes it — since only the canonical
/// spellings validate, the stored string is the requested one.
pub fn update_task_status(c: &mut rusqlite::Connection, task_id: i64, new_status: &str) -> (r:
    Result<(), TaskError>)
    ensures
        r is Err && r->Err_0 == TaskError::InvalidStatus <==> !is_valid_status(new_status@),
        !is_valid_status(new_status@) ==> *final(c) == *old(c),
        r is Ok && tasks_of(*old(c)).contains_key(task_id) ==> tasks_of(*final(c)) == tasks_of(
            *old(c),
        ).insert(task_id, (tasks_of(*old(c))[task_id].0, new_status@)),
        r is Ok && !tasks_of(*old(c)).contains_key(task_id) ==> tasks_of(*final(c)) == tasks_of(
            *old(c),
        ),
        r is Err ==> tasks_of(*final(c)) == tasks_of(*old(c)),
        store::only_tasks_touched(*old(c), *final(c)),
        statuses_canonical(tasks_of(*old(c))) ==> statuses_canonical(tasks_of(*final(c))),
{
    match TaskStatus::parse(new_status) {
        Some(status) => {
            proof {
                lemma_parse_fixes_spelling(new_status@, status);
            }
            set_task_status(c, task_id, status)
        },
        None => Err(TaskError::InvalidStatus),
    }
}

/// A string that parses is exactly the canonical spelling of the status it
/// parses to.
proof fn lemma_parse_fixes_spelling(s: Seq<char>, status: TaskStatus)
    requires
        TaskStatus::spec_parse(s) == Some(status),
    ensures
        status.spec_str() == s,
{
}

/// Deletes the task row with the given id, if there is one: deleting an
/// absent id is not an error and leaves the table exactly as it was, so a
/// repeated delete is as good as one. Storage failure is the only error.
pub fn delete_task(c: &mut rusqlite::Connection, task_id: i64) -> (r: Result<(), TaskError>)
    ensures
        r is Ok ==> tasks_of(*final(c)) == tasks_of(*old(c)).remove(task_id),
        r is Err ==> tasks_of(*final(c)) == tasks_of(*old(c)) && r->Err_0 == TaskError::Storage,
        store::only_tasks_touched(*old(c), *final(c)),
        statuses_canonical(tasks_of(*old(c))) ==> statuses_canonical(tasks_of(*final(c))),
{
    match store::remove_task(c, task_id) {
        Ok(_) => Ok(()),
        Err(_) => Err(TaskError::Storage),
    }
}

/// The returned tasks enumerate the table exactly: each listed task is a
/// stored row, no id is listed twice, every stored row is listed, and the
/// count equals the table's size. Nothing fixes the order.
pub open spec fn lists_exactly(tasks: Map<i64, (Seq<char>, Seq<char>)>, v: Seq<Task>) -> bool {
    &&& forall|i: int|
        0 <= i < v.len() ==> tasks.contains_key(#[trigger] v[i].id) && tasks[v[i].id] == ((
        v[i].title)@, (v[i].status)@)
    &&& forall|i: int, j: int|
        0 <= i < v.len() && 0 <= j < v.len() && i != j ==> #[trigger] v[i].id
            != #[trigger] v[j].id
    &&& forall|id: i64|
        tasks.contains_key(id) ==> exists|i: int| 0 <= i < v.len() && (#[trigger] v[i]).id == id
    &&& v.len() == tasks.dom().len()
}

/// Materializes every task row: on success the result enumerates the table
/// exactly, in whatever order storage chose. Storage failure is the only
/// error, and the stored state never changes.
#[verifier::loop_isolation(false)]
pub fn get_tasks(c: &rusqlite::Connection) -> (r: Result<Vec<Task>, TaskError>)
    ensures
        r matches Ok(v) ==> lists_exactly(tasks_of(*c), v@),
        r is Err ==> r->Err_0 == TaskError::Storage,
{
    let rows = match store::query_tasks(c) {
        Ok(rows) => rows,
        Err(_) => { return Err(TaskError::Storage) },
    };
    let mut out: Vec<Task> = Vec::new();
    let mut k: usize = 0;
    while k < rows.len()
        invariant
            0 <= k <= rows.len(),
            out@.len() == k,
            forall|i: int|
                0 <= i < k ==> (#[trigger] out@[i]).id == rows@[i].0 && (out@[i].title)@
                    == (rows@[i].1)@ && (out@[i].status)@ == (rows@[i].2)@,
        decreases rows.len() - k,
    {
        let row = &rows[k];
        out.push(Task { id: row.0, title: row.1.clone(), status: row.2.clone() });
        k += 1;
    }
    proof {
        assert forall|i: int|
            0 <= i < out@.len() implies tasks_of(*c).contains_key(#[trigger] out@[i].id)
            && tasks_of(*c)[out@[i].id] == ((out@[i].title)@, (out@[i].status)@) by {
            assert(out@[i].id == rows@[i].0);
            assert(tasks_of(*c).contains_key(rows@[i].0));
        }
        assert forall|i: int, j: int|
            0 <= i < out@.len() && 0 <= j < out@.len() && i != j implies #[trigger] out@[i].id
            != #[trigger] out@[j].id by {
            assert(rows@[i].0 != rows@[j].0);
        }
        assert forall|id: i64| tasks_of(*c).contains_key(id) implies exists|i: int|
            0 <= i < out@.len() && (#[trigger] out@[i]).id == id by {
            let i = choose|i: int| 0 <= i < rows@.len() && (#[trigger] rows@[i]).0 == id;
            assert(out@[i].id == id);
        }
        assert(lists_exactly(tasks_of(*c), out@));
    }
    Ok(out)
}

/// No transition is refused between enumerated statuses: whatever status a
/// task's row holds, writing any of the three canonical strings validates,
/// in any order — the guard is membership, never sequencing.
pub proof fn lemma_any_enumerated_transition(current: TaskStatus, next: TaskStatus)
    ensures
        is_valid_status(next.spec_str()),
        TaskStatus::spec_parse(next.spec_str()) == Some(next),
{
    crate::status::lemma_status_round_trip(next);
}

/// Deleting a task id twice leaves exactly the state one delete leaves:
/// removal is idempotent on the table.
pub proof fn lemma_delete_idempotent(tasks: Map<i64, (Seq<char>, Seq<char>)>, task_id: i64)
    ensures
        tasks.remove(task_id).remove(task_id) == tasks.remove(task_id),
{
    assert(tasks.remove(task_id).remove(task_id) =~= tasks.remove(task_id));
}

/// Two successful task creations never share an id, and no write is lost:
/// each new id was free when it was assigned, so after both inserts the
/// table holds both rows and has grown by exactly two.
pub proof fn lemma_concurrent_adds_distinct(
    tasks: Map<i64, (Seq<char>, Seq<char>)>,
    id1: i64,
    row1: (Seq<char>, Seq<char>),
    id2: i64,
    row2: (Seq<char>, Seq<char>),
)
    requires
        tasks.dom().finite(),
        !tasks.contains_key(id1),
        !tasks.insert(id1, row1).contains_key(id2),
    ensures
        id1 != id2,
        tasks.insert(id1, row1).insert(id2, row2)[id1] == row1,
        tasks.insert(id1, row1).insert(id2, row2)[id2] == row2,
        tasks.insert(id1, row1).insert(id2, row2).dom().len() == tasks.dom().len() + 2,
{
    let m1 = tasks.insert(id1, row1);
    let m2 = m1.insert(id2, row2);
    assert(m1.dom() =~= tasks.dom().insert(id1));
    assert(m2.dom() =~= m1.dom().insert(id2));
    vstd::set::axiom_set_insert_len(tasks.dom(), id1);
    vstd::set::axiom_set_insert_len(m1.dom(), id2);
}

} // verus!
