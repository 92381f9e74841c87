//! The academic records: subjects and their exam dates, notes and file
//! links. Each add accepts any strings it is handed; the application layer
//! validates nothing beyond the fields being present, and leaves the
//! declared foreign keys to the store. The store, as built here, enforces
//! them: a child row is accepted only for an existing subject, and an
//! existing subject with children cannot be deleted (no cascade action is
//! declared), so referential integrity is an invariant of these operations.

use vstd::prelude::*;

use crate::errors::StorageError;
use crate::store;
use crate::store::exam_dates_of;
use crate::store::file_links_of;
use crate::store::notes_of;
use crate::store::references_subject;
use crate::store::subjects_of;

verus! {

/// Referential integrity of one child table: every row's subject id names
/// an existing subject.
pub open spec fn referential_integrity(
    subjects: Map<i64, Seq<char>>,
    children: Map<i64, (i64, Seq<char>)>,
) -> bool {
    forall|id: i64| #[trigger] children.contains_key(id) ==> subjects.contains_key(children[id].0)
}

/// Creates a subject: on success the returned id was free and exactly the
/// one new row was added; on failure nothing changed. A growing subjects
/// table keeps every child table referentially intact.
pub fn add_subject(c: &mut rusqlite::Connection, name: &str) -> (r: Result<i64, StorageError>)
    ensures
        r matches Ok(id) ==> !subjects_of(*old(c)).contains_key(id) && subjects_of(*final(c))
            == subjects_of(*old(c)).insert(id, name@),
        r is Err ==> subjects_of(*final(c)) == subjects_of(*old(c)),
        store::only_subjects_touched(*old(c), *final(c)),
        referential_integrity(subjects_of(*old(c)), exam_dates_of(*old(c)))
            ==> referential_integrity(subjects_of(*final(c)), exam_dates_of(*final(c))),
        referential_integrity(subjects_of(*old(c)), notes_of(*old(c))) ==> referential_integrity(
            subjects_of(*final(c)),
            notes_of(*final(c)),
        ),
        referential_integrity(subjects_of(*old(c)), file_links_of(*old(c)))
            ==> referential_integrity(subjects_of(*final(c)), file_links_of(*final(c))),
{
    match store::insert_subject(c, name) {
        Ok(id) => Ok(id),
        Err(_) => Err(StorageError),
    }
}

/// Deletes the subject row with the given id; an absent id is not an
/// error (a delete matching no row succeeds without further checks). The
/// store refuses deleting a present subject while any exam date, note or
/// file link still references it — there is no cascade — so successfully
/// deleting an existing subject implies no child row was left behind, and
/// referential integrity is preserved either way.
pub fn delete_subject(c: &mut rusqlite::Connection, subject_id: i64) -> (r: Result<
    (),
    StorageError,
>)
    ensures
        r is Ok ==> subjects_of(*final(c)) == subjects_of(*old(c)).remove(subject_id),
        r is Ok && subjects_of(*old(c)).contains_key(subject_id) ==> !references_subject(
            exam_dates_of(*old(c)),
            subject_id,
        ) && !references_subject(notes_of(*old(c)), subject_id) && !references_subject(
            file_links_of(*old(c)),
            subject_id,
        ),
        r is Err ==> subjects_of(*final(c)) == subjects_of(*old(c)),
        store::only_subjects_touched(*old(c), *final(c)),
        referential_integrity(subjects_of(*old(c)), exam_dates_of(*old(c)))
            ==> referential_integrity(subjects_of(*final(c)), exam_dates_of(*final(c))),
        referential_integrity(subjects_of(*old(c)), notes_of(*old(c))) ==> referential_integrity(
            subjects_of(*final(c)),
            notes_of(*final(c)),
        ),
        referential_integrity(subjects_of(*old(c)), file_links_of(*old(c)))
            ==> referential_integrity(subjects_of(*final(c)), file_links_of(*final(c))),
{
    match store::remove_subject(c, subject_id) {
        Ok(_) => Ok(()),
        Err(_) => Err(StorageError),
    }
}

/// Records an exam date for a subject id. Nothing is validated here beyond
/// the fields being present; the store's enforced foreign key decides, so
/// success implies the subject existed, and referential integrity is
/// preserved.
pub fn add_exam_date(c: &mut rusqlite::Connection, subject_id: i64, date: &str) -> (r: Result<
    i64,
    StorageError,
>)
    ensures
        r matches Ok(id) ==> !exam_dates_of(*old(c)).contains_key(id) && exam_dates_of(*final(c))
            == exam_dates_of(*old(c)).insert(id, (subject_id, date@)),
        r is Ok ==> subjects_of(*old(c)).contains_key(subject_id),
        r is Err ==> exam_dates_of(*final(c)) == exam_dates_of(*old(c)),
        store::only_exam_dates_touched(*old(c), *final(c)),
        referential_integrity(subjects_of(*old(c)), exam_dates_of(*old(c)))
            ==> referential_integrity(subjects_of(*final(c)), exam_dates_of(*final(c))),
{
    match store::insert_exam_date(c, subject_id, date) {
        Ok(id) => Ok(id),
        Err(_) => Err(StorageError),
    }
}

/// Records a note for a subject id, with the same enforced reference as
/// `add_exam_date`.
pub fn add_note(c: &mut rusqlite::Connection, subject_id: i64, content: &str) -> (r: Result<
    i64,
    StorageError,
>)
    ensures
        r matches Ok(id) ==> !notes_of(*old(c)).contains_key(id) && notes_of(*final(c)) == notes_of(
            *old(c),
        ).insert(id, (subject_id, content@)),
        r is Ok ==> subjects_of(*old(c)).contains_key(subject_id),
        r is Err ==> notes_of(*final(c)) == notes_of(*old(c)),
        store::only_notes_touched(*old(c), *final(c)),
        referential_integrity(subjects_of(*old(c)), notes_of(*old(c))) ==> referential_integrity(
            subjects_of(*final(c)),
            notes_of(*final(c)),
        ),
{
    match store::insert_note(c, subject_id, content) {
        Ok(id) => Ok(id),
        Err(_) => Err(StorageError),
    }
}

/// Records a file link for a subject id, with the same enforced reference
/// as `add_exam_date`.
pub fn add_file_link(c: &mut rusqlite::Connection, subject_id: i64, url: &str) -> (r: Result<
    i64,
    StorageError,
>)
    ensures
        r matches Ok(id) ==> !file_links_of(*old(c)).contains_key(id) && file_links_of(*final(c))
            == file_links_of(*old(c)).insert(id, (subject_id, url@)),
        r is Ok ==> subjects_of(*old(c)).contains_key(subject_id),
        r is Err ==> file_links_of(*final(c)) == file_links_of(*old(c)),
        store::only_file_links_touched(*old(c), *final(c)),
        referential_integrity(subjects_of(*old(c)), file_links_of(*old(c)))
            ==> referential_integrity(subjects_of(*final(c)), file_links_of(*final(c))),
{
    match store::insert_file_link(c, subject_id, url) {
        Ok(id) => Ok(id),
        Err(_) => Err(StorageError),
    }
}

/// Removing a subject that no child references keeps a referentially
/// intact child table intact: every remaining row still names a subject
/// that survives the removal.
pub proof fn lemma_unreferenced_delete_keeps_integrity(
    subjects: Map<i64, Seq<char>>,
    children: Map<i64, (i64, Seq<char>)>,
    subject_id: i64,
)
    requires
        referential_integrity(subjects, children),
        !references_subject(children, subject_id),
    ensures
        referential_integrity(subjects.remove(subject_id), children),
{
    assert forall|id: i64| #[trigger] children.contains_key(id) implies subjects.remove(
        subject_id,
    ).contains_key(children[id].0) by {
        assert(children[id].0 != subject_id);
    }
}

} // verus!
