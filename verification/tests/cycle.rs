use webuntis::controller::{
    poll_interval_secs, relevant_date, session_expired, BaselineState, Controller, Notification,
    MAX_CONSECUTIVE_FAILURES,
};
use webuntis::datetime::{Date, DateTime};
use webuntis::diff::ChangeKind;
use webuntis::entries::Status;
use webuntis::error::Error;
use webuntis::LessonInfo;

fn lesson(subject: &str, teacher: &str, room: &str) -> LessonInfo {
    LessonInfo {
        status: Status::Regular,
        datetime: DateTime { date: Date { year: 2024, month: 9, day: 2 }, hour: 8, minute: 0 },
        subject: subject.to_string(),
        subject_status: Status::Regular,
        teacher: teacher.to_string(),
        teacher_status: Status::Regular,
        room: room.to_string(),
        room_status: Status::Regular,
        lesson_info: None,
        lesson_text: None,
        substitution_text: None,
        notes: None,
        texts: vec![],
    }
}

fn sept(day: u8) -> Date {
    Date { year: 2024, month: 9, day }
}

#[test]
fn first_cycle_adopts_baseline_silently() {
    let mut controller = Controller::new();
    let notes = controller.apply_day(sept(2), vec![lesson("Math", "Smith", "101")]).unwrap();
    assert!(notes.is_empty());
    assert!(matches!(controller.state, BaselineState::Baseline { .. }));
    assert_eq!(controller.failures, 0);
}

#[test]
fn date_rollover_discards_and_readopts_silently() {
    let mut controller = Controller::new();
    controller.apply_day(sept(2), vec![lesson("Math", "Smith", "101")]).unwrap();
    // The next day's content is identical, but the date changed: the
    // baseline is replaced and nothing is reported.
    let notes = controller.apply_day(sept(3), vec![lesson("Math", "Smith", "101")]).unwrap();
    assert!(notes.is_empty());
    match &controller.state {
        BaselineState::Baseline { date, lessons } => {
            assert_eq!(*date, sept(3));
            assert_eq!(lessons.len(), 1);
        },
        BaselineState::NoBaseline => panic!("baseline missing after rollover"),
    }
}

#[test]
fn teacher_change_notifies_and_invalidates_baseline() {
    let mut controller = Controller::new();
    controller.apply_day(sept(2), vec![lesson("Math", "Smith", "101")]).unwrap();
    let notes = controller.apply_day(sept(2), vec![lesson("Math", "Jones", "101")]).unwrap();
    assert_eq!(
        notes,
        vec![Notification { lesson_index: 0, kind: ChangeKind::TeacherChanged }]
    );
    assert!(matches!(controller.state, BaselineState::NoBaseline));
}

#[test]
fn unchanged_day_keeps_baseline() {
    let mut controller = Controller::new();
    controller.apply_day(sept(2), vec![lesson("Math", "Smith", "101")]).unwrap();
    let notes = controller.apply_day(sept(2), vec![lesson("Math", "Smith", "101")]).unwrap();
    assert!(notes.is_empty());
    assert!(matches!(controller.state, BaselineState::Baseline { .. }));
}

#[test]
fn notifications_carry_the_lesson_index() {
    let mut controller = Controller::new();
    controller
        .apply_day(sept(2), vec![lesson("Math", "Smith", "101"), lesson("Art", "Doe", "202")])
        .unwrap();
    let notes = controller
        .apply_day(sept(2), vec![lesson("Math", "Smith", "101"), lesson("Art", "Doe", "303")])
        .unwrap();
    assert_eq!(
        notes,
        vec![Notification { lesson_index: 1, kind: ChangeKind::RoomChanged }]
    );
}

#[test]
fn lesson_count_mismatch_is_a_hard_error() {
    let mut controller = Controller::new();
    controller
        .apply_day(sept(2), vec![lesson("Math", "Smith", "101"), lesson("Art", "Doe", "202")])
        .unwrap();
    let err = controller
        .apply_day(
            sept(2),
            vec![
                lesson("Math", "Smith", "101"),
                lesson("Art", "Doe", "202"),
                lesson("Gym", "Lee", "Hall"),
            ],
        )
        .unwrap_err();
    assert_eq!(err, Error::LessonCountMismatch { previous: 2, current: 3 });
    // The baseline is left untouched and the failure counter ticked up.
    match &controller.state {
        BaselineState::Baseline { lessons, .. } => assert_eq!(lessons.len(), 2),
        BaselineState::NoBaseline => panic!("baseline was dropped on a shape mismatch"),
    }
    assert_eq!(controller.failures, 1);
}

#[test]
fn five_consecutive_failures_are_fatal() {
    let mut controller = Controller::new();
    for _ in 0..4 {
        assert!(!controller.record_failure());
        assert!(!controller.is_fatal());
    }
    assert!(controller.record_failure());
    assert!(controller.is_fatal());
    assert_eq!(controller.failures, MAX_CONSECUTIVE_FAILURES);
}

#[test]
fn a_success_resets_the_failure_counter() {
    let mut controller = Controller::new();
    for _ in 0..4 {
        controller.record_failure();
    }
    assert_eq!(controller.failures, 4);
    controller.apply_day(sept(2), vec![lesson("Math", "Smith", "101")]).unwrap();
    assert_eq!(controller.failures, 0);
    assert!(!controller.is_fatal());
}

#[test]
fn an_empty_day_is_a_valid_baseline() {
    let mut controller = Controller::new();
    assert!(controller.apply_day(sept(2), vec![]).unwrap().is_empty());
    let notes = controller.apply_day(sept(2), vec![]).unwrap();
    assert!(notes.is_empty());
    assert!(matches!(controller.state, BaselineState::Baseline { .. }));
    assert_eq!(controller.failures, 0);
}

#[test]
fn relevant_date_is_today_before_the_rollover_hour() {
    assert_eq!(relevant_date(sept(2), 0), sept(2));
    assert_eq!(relevant_date(sept(2), 17), sept(2));
}

#[test]
fn relevant_date_is_tomorrow_from_the_rollover_hour_on() {
    assert_eq!(relevant_date(sept(2), 18), sept(3));
    assert_eq!(relevant_date(sept(2), 23), sept(3));
    assert_eq!(
        relevant_date(Date { year: 2024, month: 12, day: 31 }, 20),
        Date { year: 2025, month: 1, day: 1 }
    );
}

#[test]
fn poll_intervals_follow_the_school_day() {
    assert_eq!(poll_interval_secs(7), 4);
    assert_eq!(poll_interval_secs(6), 20);
    assert_eq!(poll_interval_secs(8), 20);
    assert_eq!(poll_interval_secs(10), 20);
    assert_eq!(poll_interval_secs(11), 40);
    assert_eq!(poll_interval_secs(15), 40);
    assert_eq!(poll_interval_secs(16), 200);
    assert_eq!(poll_interval_secs(0), 200);
    assert_eq!(poll_interval_secs(23), 200);
}

#[test]
fn session_expiry_is_checked_against_the_maximum_lifetime() {
    assert!(!session_expired(1000, 1000));
    assert!(!session_expired(1000, 1839));
    assert!(session_expired(1000, 1840));
    assert!(session_expired(1000, 5000));
}
