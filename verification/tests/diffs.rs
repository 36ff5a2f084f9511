use webuntis::datetime::{Date, DateTime};
use webuntis::diff::{diff, ChangeKind};
use webuntis::entries::Status;
use webuntis::LessonInfo;

fn lesson(subject: &str, teacher: &str, room: &str) -> LessonInfo {
    LessonInfo {
        status: Status::Regular,
        datetime: DateTime { date: Date { year: 2024, month: 9, day: 2 }, hour: 8, minute: 0 },
        subject: subject.to_string(),
        subject_status: Status::Regular,
        teacher: teacher.to_string(),
        teacher_status: Status::Regular,
        room: room.to_string(),
        room_status: Status::Regular,
        lesson_info: None,
        lesson_text: None,
        substitution_text: None,
        notes: None,
        texts: vec![],
    }
}

#[test]
fn identical_lessons_diff_silently() {
    let a = lesson("Math", "Smith", "101");
    let b = lesson("Math", "Smith", "101");
    let (changed, kinds) = diff(&a, &b);
    assert!(!changed);
    assert!(kinds.is_empty());
}

#[test]
fn cancellation_yields_exactly_one_classification() {
    let old = lesson("Math", "Smith", "101");
    let mut new = lesson("Math", "Smith", "101");
    new.status = Status::Cancelled;
    let (changed, kinds) = diff(&old, &new);
    assert!(changed);
    assert_eq!(kinds, vec![ChangeKind::LessonCancellation]);
}

#[test]
fn removal_counts_as_cancellation() {
    let old = lesson("Math", "Smith", "101");
    let mut new = lesson("Math", "Smith", "101");
    new.status = Status::Removed;
    let (_, kinds) = diff(&old, &new);
    assert_eq!(kinds, vec![ChangeKind::LessonCancellation]);
}

#[test]
fn explicit_change_is_classified() {
    let old = lesson("Math", "Smith", "101");
    let mut new = lesson("Math", "Smith", "101");
    new.status = Status::Changed;
    let (_, kinds) = diff(&old, &new);
    assert_eq!(kinds, vec![ChangeKind::LessonChange]);
}

#[test]
fn benign_status_transition_changes_without_classification() {
    let old = lesson("Math", "Smith", "101");
    let mut new = lesson("Math", "Smith", "101");
    new.status = Status::Added;
    let (changed, kinds) = diff(&old, &new);
    assert!(changed);
    assert!(kinds.is_empty());
}

#[test]
fn teacher_change_is_classified() {
    let old = lesson("Math", "Smith", "101");
    let new = lesson("Math", "Jones", "101");
    let (changed, kinds) = diff(&old, &new);
    assert!(changed);
    assert_eq!(kinds, vec![ChangeKind::TeacherChanged]);
}

#[test]
fn subject_status_change_is_classified() {
    let old = lesson("Math", "Smith", "101");
    let mut new = lesson("Math", "Smith", "101");
    new.subject_status = Status::Changed;
    let (_, kinds) = diff(&old, &new);
    assert_eq!(kinds, vec![ChangeKind::SubjectChanged]);
}

#[test]
fn room_change_is_classified() {
    let old = lesson("Math", "Smith", "101");
    let new = lesson("Math", "Smith", "202");
    let (_, kinds) = diff(&old, &new);
    assert_eq!(kinds, vec![ChangeKind::RoomChanged]);
}

#[test]
fn annotation_changes_are_classified_once() {
    let old = lesson("Math", "Smith", "101");
    let mut new = lesson("Math", "Smith", "101");
    new.lesson_info = Some("moved".to_string());
    new.texts = vec!["extra".to_string()];
    let (_, kinds) = diff(&old, &new);
    assert_eq!(kinds, vec![ChangeKind::NotesChanged]);
}

#[test]
fn untracked_field_change_is_a_residual_signal() {
    let old = lesson("Math", "Smith", "101");
    let mut new = lesson("Math", "Smith", "101");
    new.datetime = DateTime { date: Date { year: 2024, month: 9, day: 2 }, hour: 9, minute: 0 };
    let (changed, kinds) = diff(&old, &new);
    assert!(changed);
    assert!(kinds.is_empty());
}

#[test]
fn classifications_come_in_presentation_order() {
    let old = lesson("Math", "Smith", "101");
    let mut new = lesson("Math", "Jones", "202");
    new.status = Status::Cancelled;
    new.notes = Some("room closed".to_string());
    let (_, kinds) = diff(&old, &new);
    assert_eq!(
        kinds,
        vec![
            ChangeKind::LessonCancellation,
            ChangeKind::TeacherChanged,
            ChangeKind::RoomChanged,
            ChangeKind::NotesChanged,
        ]
    );
}
