//! The diff engine: classified semantic changes between two snapshots of
//! the same lesson.

use vstd::prelude::*;

use crate::entries::Status;
use crate::{lesson_eq, option_text_eq, text_eq, text_view, texts_eq, texts_view, LessonInfo};

verus! {

/// The kind of one detected semantic change.
#[derive(Debug, Clone, Copy, PartialEq, Eq, Hash, Structural)]
pub enum ChangeKind {
    LessonCancellation,
    LessonChange,
    SubjectChanged,
    TeacherChanged,
    RoomChanged,
    NotesChanged,
}

/// The classification a status transition earns: cancellations and
/// removals alarm, an explicit change informs, any other transition is not
/// itself notification-worthy.
pub open spec fn status_kinds(old: LessonInfo, new: LessonInfo) -> Seq<ChangeKind> {
    if old.status != new.status {
        if new.status is Cancelled || new.status is Removed {
            seq![ChangeKind::LessonCancellation]
        } else if new.status is Changed {
            seq![ChangeKind::LessonChange]
        } else {
            Seq::empty()
        }
    } else {
        Seq::empty()
    }
}

pub open spec fn subject_changed(old: LessonInfo, new: LessonInfo) -> bool {
    old.subject_status != new.subject_status || old.subject@ != new.subject@
}

pub open spec fn teacher_changed(old: LessonInfo, new: LessonInfo) -> bool {
    old.teacher_status != new.teacher_status || old.teacher@ != new.teacher@
}

pub open spec fn room_changed(old: LessonInfo, new: LessonInfo) -> bool {
    old.room_status != new.room_status || old.room@ != new.room@
}

pub open spec fn notes_changed(old: LessonInfo, new: LessonInfo) -> bool {
    ||| text_view(old.lesson_info) != text_view(new.lesson_info)
    ||| text_view(old.lesson_text) != text_view(new.lesson_text)
    ||| text_view(old.substitution_text) != text_view(new.substitution_text)
    ||| text_view(old.notes) != text_view(new.notes)
    ||| texts_view(old.texts@) != texts_view(new.texts@)
}

pub open spec fn kind_if(fired: bool, kind: ChangeKind) -> Seq<ChangeKind> {
    if fired {
        seq![kind]
    } else {
        Seq::empty()
    }
}

/// Every classification two lesson records earn, in presentation order.
pub open spec fn diff_kinds(old: LessonInfo, new: LessonInfo) -> Seq<ChangeKind> {
    status_kinds(old, new) + kind_if(subject_changed(old, new), ChangeKind::SubjectChanged)
        + kind_if(teacher_changed(old, new), ChangeKind::TeacherChanged) + kind_if(
        room_changed(old, new),
        ChangeKind::RoomChanged,
    ) + kind_if(notes_changed(old, new), ChangeKind::NotesChanged)
}

/// Compares two snapshots of the same lesson.
///
/// The flag reports whether anything at all differs, even a field no check
/// tracks; the list holds the classified changes in presentation order.
pub fn diff(old: &LessonInfo, new: &LessonInfo) -> (r: (bool, Vec<ChangeKind>))
    ensures
        r.0 == !lesson_eq(*old, *new),
        r.1@ == diff_kinds(*old, *new),
{
    if old.eq(new) {
        assert(diff_kinds(*old, *new) =~= Seq::<ChangeKind>::empty());
        return (false, Vec::new());
    }
    let mut kinds: Vec<ChangeKind> = Vec::new();
    if old.status != new.status {
        if matches!(new.status, Status::Cancelled | Status::Removed) {
            kinds.push(ChangeKind::LessonCancellation);
        } else if new.status == Status::Changed {
            kinds.push(ChangeKind::LessonChange);
        }
    }
    if old.subject_status != new.subject_status || !text_eq(&old.subject, &new.subject) {
        kinds.push(ChangeKind::SubjectChanged);
    }
    if old.teacher_status != new.teacher_status || !text_eq(&old.teacher, &new.teacher) {
        kinds.push(ChangeKind::TeacherChanged);
    }
    if old.room_status != new.room_status || !text_eq(&old.room, &new.room) {
        kinds.push(ChangeKind::RoomChanged);
    }
    if !option_text_eq(&old.lesson_info, &new.lesson_info) || !option_text_eq(
        &old.lesson_text,
        &new.lesson_text,
    ) || !option_text_eq(&old.substitution_text, &new.substitution_text) || !option_text_eq(
        &old.notes,
        &new.notes,
    ) || !texts_eq(&old.texts, &new.texts) {
        kinds.push(ChangeKind::NotesChanged);
    }
    assert(kinds@ =~= diff_kinds(*old, *new));
    (true, kinds)
}

/// Diffing a lesson record against itself reports no change and no
/// classifications.
pub proof fn lemma_diff_identical(x: LessonInfo)
    ensures
        lesson_eq(x, x),
        diff_kinds(x, x) == Seq::<ChangeKind>::empty(),
{
    assert(diff_kinds(x, x) =~= Seq::<ChangeKind>::empty());
}

/// Two distinct records that differ only in status, the new status being a
/// cancellation, earn exactly one lesson-cancellation classification.
pub proof fn lemma_cancellation_only(old: LessonInfo, new: LessonInfo)
    requires
        old.status != new.status,
        new.status is Cancelled,
        old.datetime == new.datetime,
        old.subject@ == new.subject@,
        old.subject_status == new.subject_status,
        old.teacher@ == new.teacher@,
        old.teacher_status == new.teacher_status,
        old.room@ == new.room@,
        old.room_status == new.room_status,
        text_view(old.lesson_info) == text_view(new.lesson_info),
        text_view(old.lesson_text) == text_view(new.lesson_text),
        text_view(old.substitution_text) == text_view(new.substitution_text),
        text_view(old.notes) == text_view(new.notes),
        texts_view(old.texts@) == texts_view(new.texts@),
    ensures
        !lesson_eq(old, new),
        diff_kinds(old, new) == seq![ChangeKind::LessonCancellation],
{
    assert(diff_kinds(old, new) =~= seq![ChangeKind::LessonCancellation]);
}

} // verus!
