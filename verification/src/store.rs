//! The storage gateway: one SQLite connection, reached exclusively through an
//! `&mut` borrow, holding the six tables of the schema. Each table is modelled
//! by an uninterpreted contents function from the connection to a map of plain
//! values, and every statement the library issues stands behind one trusted
//! wrapper whose contract says what the statement does to those contents.
//!
//! Exclusivity discipline: callers reach the connection only through `&mut`
//! (or `&` for reads), so two operations can never interleave statements on
//! the same handle — the borrow checker plays the part of the gateway's lock.

use rusqlite::OptionalExtension;
use vstd::prelude::*;

verus! {

#[verifier::external_type_specification]
#[verifier::external_body]
pub struct ExConnection(rusqlite::Connection);

/// The `users` table: username -> stored password hash. The map shape itself
/// records that usernames are unique (the table's unique constraint).
pub uninterp spec fn users_of(c: rusqlite::Connection) -> Map<Seq<char>, Seq<char>>;

/// The `tasks` table: id -> (title, status string).
pub uninterp spec fn tasks_of(c: rusqlite::Connection) -> Map<i64, (Seq<char>, Seq<char>)>;

/// The `subjects` table: id -> name.
pub uninterp spec fn subjects_of(c: rusqlite::Connection) -> Map<i64, Seq<char>>;

/// The `exam_dates` table: id -> (subject_id, date).
pub uninterp spec fn exam_dates_of(c: rusqlite::Connection) -> Map<i64, (i64, Seq<char>)>;

/// The `notes` table: id -> (subject_id, content).
pub uninterp spec fn notes_of(c: rusqlite::Connection) -> Map<i64, (i64, Seq<char>)>;

/// The `file_links` table: id -> (subject_id, url).
pub uninterp spec fn file_links_of(c: rusqlite::Connection) -> Map<i64, (i64, Seq<char>)>;

/// Every table but `users` reads the same in both states.
pub open spec fn only_users_touched(a: rusqlite::Connection, b: rusqlite::Connection) -> bool {
    &&& tasks_of(b) == tasks_of(a)
    &&& subjects_of(b) == subjects_of(a)
    &&& exam_dates_of(b) == exam_dates_of(a)
    &&& notes_of(b) == notes_of(a)
    &&& file_links_of(b) == file_links_of(a)
}

/// Every table but `tasks` reads the same in both states.
pub open spec fn only_tasks_touched(a: rusqlite::Connection, b: rusqlite::Connection) -> bool {
    &&& users_of(b) == users_of(a)
    &&& subjects_of(b) == subjects_of(a)
    &&& exam_dates_of(b) == exam_dates_of(a)
    &&& notes_of(b) == notes_of(a)
    &&& file_links_of(b) == file_links_of(a)
}

/// Every table but `subjects` reads the same in both states.
pub open spec fn only_subjects_touched(a: rusqlite::Connection, b: rusqlite::Connection) -> bool {
    &&& users_of(b) == users_of(a)
    &&& tasks_of(b) == tasks_of(a)
    &&& exam_dates_of(b) == exam_dates_of(a)
    &&& notes_of(b) == notes_of(a)
    &&& file_links_of(b) == file_links_of(a)
}

/// Every table but `exam_dates` reads the same in both states.
pub open spec fn only_exam_dates_touched(a: rusqlite::Connection, b: rusqlite::Connection) -> bool {
    &&& users_of(b) == users_of(a)
    &&& tasks_of(b) == tasks_of(a)
    &&& subjects_of(b) == subjects_of(a)
    &&& notes_of(b) == notes_of(a)
    &&& file_links_of(b) == file_links_of(a)
}

/// Every table but `notes` reads the same in both states.
pub open spec fn only_notes_touched(a: rusqlite::Connection, b: rusqlite::Connection) -> bool {
    &&& users_of(b) == users_of(a)
    &&& tasks_of(b) == tasks_of(a)
    &&& subjects_of(b) == subjects_of(a)
    &&& exam_dates_of(b) == exam_dates_of(a)
    &&& file_links_of(b) == file_links_of(a)
}

/// Every table but `file_links` reads the same in both states.
pub open spec fn only_file_links_touched(a: rusqlite::Connection, b: rusqlite::Connection) -> bool {
    &&& users_of(b) == users_of(a)
    &&& tasks_of(b) == tasks_of(a)
    &&& subjects_of(b) == subjects_of(a)
    &&& exam_dates_of(b) == exam_dates_of(a)
    &&& notes_of(b) == notes_of(a)
}

/// Relies on `rusqlite::Connection::execute` running an INSERT on the `users`
/// table, whose `username` column carries a unique constraint: inserting a
/// taken username fails with a constraint-violation code and writes nothing;
/// a successful insert adds exactly the one row. `Err(true)` reports a
/// constraint violation, `Err(false)` any other storage failure.
#[verifier::external_body]
pub(crate) fn insert_user(
    c: &mut rusqlite::Connection,
    username: &str,
    password_hash: &str,
) -> (r: Result<(), bool>)
    ensures
        r is Ok ==> !users_of(*old(c)).contains_key(username@) && users_of(*final(c)) == users_of(
            *old(c),
        ).insert(username@, password_hash@),
        r is Err ==> users_of(*final(c)) == users_of(*old(c)),
        users_of(*old(c)).contains_key(username@) ==> r is Err && r->Err_0 == true,
        r is Err && r->Err_0 == true ==> users_of(*old(c)).contains_key(username@),
        only_users_touched(*old(c), *final(c)),
{
    match c.execute(
        "INSERT INTO users (username, password_hash) VALUES (?1, ?2)",
        (username, password_hash),
    ) {
        Ok(_) => Ok(()),
        Err(e) => Err(
            e.sqlite_error_code() == Some(rusqlite::ffi::ErrorCode::ConstraintViolation),
        ),
    }
}

/// Relies on `rusqlite::Connection::query_row` with `OptionalExtension`: a
/// SELECT of `password_hash` keyed by the unique `username` column returns the
/// stored hash when the row exists and `None` when it does not.
#[verifier::external_body]
pub(crate) fn find_user(c: &rusqlite::Connection, username: &str) -> (r: Result<Option<String>, ()>)
    ensures
        r matches Ok(Some(h)) ==> users_of(*c).contains_key(username@) && h@ == users_of(
            *c,
        )[username@],
        r matches Ok(o) && o is None ==> !users_of(*c).contains_key(username@),
{
    c.query_row(
        "SELECT password_hash FROM users WHERE username = ?1",
        (username,),
        |row| row.get(0),
    ).optional().map_err(|_| ())
}

/// Relies on `rusqlite::Connection::execute` running an INSERT on `tasks`
/// (SQLite assigns an unused rowid to the new row) and on
/// `rusqlite::Connection::last_insert_rowid` returning that rowid.
#[verifier::external_body]
pub(crate) fn insert_task(c: &mut rusqlite::Connection, title: &str, status: &str) -> (r: Result<i64, ()>)
    ensures
        r matches Ok(id) ==> !tasks_of(*old(c)).contains_key(id) && tasks_of(*final(c)) == tasks_of(
            *old(c),
        ).insert(id, (title@, status@)),
        r is Err ==> tasks_of(*final(c)) == tasks_of(*old(c)),
        only_tasks_touched(*old(c), *final(c)),
{
    match c.execute("INSERT INTO tasks (title, status) VALUES (?1, ?2)", (title, status)) {
        Ok(_) => Ok(c.last_insert_rowid()),
        Err(_) => Err(()),
    }
}

/// Relies on `rusqlite::Connection::execute` running an UPDATE of the status
/// column keyed by id: it rewrites the one matching row and matches nothing
/// when the id is absent (zero affected rows still report success).
#[verifier::external_body]
pub(crate) fn modify_task_status(
    c: &mut rusqlite::Connection,
    task_id: i64,
    status: &str,
) -> (r: Result<(), ()>)
    ensures
        r is Ok && tasks_of(*old(c)).contains_key(task_id) ==> tasks_of(*final(c)) == tasks_of(
            *old(c),
        ).insert(task_id, (tasks_of(*old(c))[task_id].0, status@)),
        r is Ok && !tasks_of(*old(c)).contains_key(task_id) ==> tasks_of(*final(c)) == tasks_of(
            *old(c),
        ),
        r is Err ==> tasks_of(*final(c)) == tasks_of(*old(c)),
        only_tasks_touched(*old(c), *final(c)),
{
    match c.execute("UPDATE tasks SET status = ?1 WHERE id = ?2", (status, task_id)) {
        Ok(_) => Ok(()),
        Err(_) => Err(()),
    }
}

/// Relies on `rusqlite::Connection::execute` running a DELETE keyed by id:
/// the matching row, if any, is removed; deleting an absent id succeeds.
#[verifier::external_body]
pub(crate) fn remove_task(c: &mut rusqlite::Connection, task_id: i64) -> (r: Result<(), ()>)
    ensures
        r is Ok ==> tasks_of(*final(c)) == tasks_of(*old(c)).remove(task_id),
        r is Err ==> tasks_of(*final(c)) == tasks_of(*old(c)),
        only_tasks_touched(*old(c), *final(c)),
{
    match c.execute("DELETE FROM tasks WHERE id = ?1", (task_id,)) {
        Ok(_) => Ok(()),
        Err(_) => Err(()),
    }
}

/// Relies on `rusqlite::Connection::prepare` and `Statement::query_map`: a
/// SELECT over all of `tasks` yields each stored row exactly once, keyed by
/// the primary-key id, in storage order.
#[verifier::external_body]
pub(crate) fn query_tasks(c: &rusqlite::Connection) -> (r: Result<Vec<(i64, String, String)>, ()>)
    ensures
        r matches Ok(v) ==> {
            &&& forall|i: int|
                0 <= i < v@.len() ==> tasks_of(*c).contains_key(#[trigger] v@[i].0) && tasks_of(
                    *c,
                )[v@[i].0] == ((v@[i].1)@, (v@[i].2)@)
            &&& forall|i: int, j: int|
                0 <= i < v@.len() && 0 <= j < v@.len() && i != j ==> #[trigger] v@[i].0
                    != #[trigger] v@[j].0
            &&& forall|id: i64|
                tasks_of(*c).contains_key(id) ==> exists|i: int|
                    0 <= i < v@.len() && (#[trigger] v@[i]).0 == id
            &&& v@.len() == tasks_of(*c).dom().len()
            &&& tasks_of(*c).dom().finite()
        },
{
    let go = || -> rusqlite::Result<Vec<(i64, String, String)>> {
        let mut stmt = c.prepare("SELECT id, title, status FROM tasks")?;
        let rows = stmt.query_map((), |row| Ok((row.get(0)?, row.get(1)?, row.get(2)?)))?;
        let mut v = Vec::new();
        for row in rows {
            v.push(row?);
        }
        Ok(v)
    };
    go().map_err(|_| ())
}

/// Relies on `rusqlite::Connection::execute` running an INSERT on `subjects`
/// and on `rusqlite::Connection::last_insert_rowid`, as for tasks.
#[verifier::external_body]
pub(crate) fn insert_subject(c: &mut rusqlite::Connection, name: &str) -> (r: Result<i64, ()>)
    ensures
        r matches Ok(id) ==> !subjects_of(*old(c)).contains_key(id) && subjects_of(*final(c))
            == subjects_of(*old(c)).insert(id, name@),
        r is Err ==> subjects_of(*final(c)) == subjects_of(*old(c)),
        only_subjects_touched(*old(c), *final(c)),
{
    match c.execute("INSERT INTO subjects (name) VALUES (?1)", (name,)) {
        Ok(_) => Ok(c.last_insert_rowid()),
        Err(_) => Err(()),
    }
}

/// Relies on `rusqlite::Connection::execute` running a DELETE keyed by id on
/// `subjects`. No cascade action is declared and the bundled SQLite
/// enforces foreign keys by default, so deleting a subject that is present
/// goes through only while no exam date, note or file link references it;
/// otherwise it fails with a constraint violation and nothing changes. A
/// delete that matches no row runs no foreign-key check at all — it simply
/// succeeds — so nothing is claimed about references to an absent id.
#[verifier::external_body]
pub(crate) fn remove_subject(c: &mut rusqlite::Connection, subject_id: i64) -> (r: Result<(), ()>)
    ensures
        r is Ok ==> subjects_of(*final(c)) == subjects_of(*old(c)).remove(subject_id),
        r is Ok && subjects_of(*old(c)).contains_key(subject_id) ==> !references_subject(
            exam_dates_of(*old(c)),
            subject_id,
        ) && !references_subject(notes_of(*old(c)), subject_id) && !references_subject(
            file_links_of(*old(c)),
            subject_id,
        ),
        r is Err ==> subjects_of(*final(c)) == subjects_of(*old(c)),
        only_subjects_touched(*old(c), *final(c)),
{
    match c.execute("DELETE FROM subjects WHERE id = ?1", (subject_id,)) {
        Ok(_) => Ok(()),
        Err(_) => Err(()),
    }
}

/// Whether some child row references the subject id.
pub open spec fn references_subject(
    children: Map<i64, (i64, Seq<char>)>,
    subject_id: i64,
) -> bool {
    exists|id: i64| #[trigger] children.contains_key(id) && children[id].0 == subject_id
}

/// Relies on `rusqlite::Connection::execute` running an INSERT on
/// `exam_dates` and on `rusqlite::Connection::last_insert_rowid`. The
/// bundled SQLite is compiled with foreign-key enforcement on by default,
/// so the insert goes through only when the referenced subject exists and
/// fails with a constraint violation when it does not.
#[verifier::external_body]
pub(crate) fn insert_exam_date(
    c: &mut rusqlite::Connection,
    subject_id: i64,
    date: &str,
) -> (r: Result<i64, ()>)
    ensures
        r matches Ok(id) ==> !exam_dates_of(*old(c)).contains_key(id) && exam_dates_of(*final(c))
            == exam_dates_of(*old(c)).insert(id, (subject_id, date@)),
        r is Ok ==> subjects_of(*old(c)).contains_key(subject_id),
        r is Err ==> exam_dates_of(*final(c)) == exam_dates_of(*old(c)),
        only_exam_dates_touched(*old(c), *final(c)),
{
    match c.execute("INSERT INTO exam_dates (subject_id, date) VALUES (?1, ?2)", (subject_id, date))
    {
        Ok(_) => Ok(c.last_insert_rowid()),
        Err(_) => Err(()),
    }
}

/// Relies on `rusqlite::Connection::execute` running an INSERT on `notes`
/// and on `rusqlite::Connection::last_insert_rowid`, with the same enforced
/// foreign key as for exam dates.
#[verifier::external_body]
pub(crate) fn insert_note(
    c: &mut rusqlite::Connection,
    subject_id: i64,
    content: &str,
) -> (r: Result<i64, ()>)
    ensures
        r matches Ok(id) ==> !notes_of(*old(c)).contains_key(id) && notes_of(*final(c)) == notes_of(
            *old(c),
        ).insert(id, (subject_id, content@)),
        r is Ok ==> subjects_of(*old(c)).contains_key(subject_id),
        r is Err ==> notes_of(*final(c)) == notes_of(*old(c)),
        only_notes_touched(*old(c), *final(c)),
{
    match c.execute("INSERT INTO notes (subject_id, content) VALUES (?1, ?2)", (subject_id, content))
    {
        Ok(_) => Ok(c.last_insert_rowid()),
        Err(_) => Err(()),
    }
}

/// Relies on `rusqlite::Connection::execute` running an INSERT on
/// `file_links` and on `rusqlite::Connection::last_insert_rowid`, with the
/// same enforced foreign key as for exam dates.
#[verifier::external_body]
pub(crate) fn insert_file_link(
    c: &mut rusqlite::Connection,
    subject_id: i64,
    url: &str,
) -> (r: Result<i64, ()>)
    ensures
        r matches Ok(id) ==> !file_links_of(*old(c)).contains_key(id) && file_links_of(*final(c))
            == file_links_of(*old(c)).insert(id, (subject_id, url@)),
        r is Ok ==> subjects_of(*old(c)).contains_key(subject_id),
        r is Err ==> file_links_of(*final(c)) == file_links_of(*old(c)),
        only_file_links_touched(*old(c), *final(c)),
{
    match c.execute("INSERT INTO file_links (subject_id, url) VALUES (?1, ?2)", (subject_id, url)) {
        Ok(_) => Ok(c.last_insert_rowid()),
        Err(_) => Err(()),
    }
}

} // verus!
