//! Change-detection core for a school timetable poller.
//!
//! The library models a backend's daily lesson grid, resolves its ambiguous
//! position slots into authoritative rows, projects grid entries into flat,
//! comparable lesson records, classifies semantic changes between two
//! snapshots of the same day, and drives the poll-cycle state machine that
//! decides when a baseline snapshot is valid, stale, or must be discarded.
//! Transport, argument handling and notification delivery live outside the
//! library and talk to it through plain values.

use vstd::prelude::*;

pub mod controller;
pub mod datetime;
pub mod diff;
pub mod discord;
pub mod entries;
pub mod error;
pub mod extract;
pub mod untis;
pub mod validate;

pub use extract::{extract_all_lessons, extract_lesson_info};

verus! {

use crate::datetime::DateTime;
use crate::entries::Status;

/// A flat, comparable record of one lesson, projected out of a grid entry.
///
/// The four optional text fields are `None` exactly when the source string
/// was empty or whitespace-only after trimming.
#[derive(Debug, Clone)]
pub struct LessonInfo {
    pub status: Status,
    pub datetime: DateTime,
    pub subject: String,
    pub subject_status: Status,
    pub teacher: String,
    pub teacher_status: Status,
    pub room: String,
    pub room_status: Status,
    pub lesson_info: Option<String>,
    pub lesson_text: Option<String>,
    pub substitution_text: Option<String>,
    pub notes: Option<String>,
    pub texts: Vec<String>,
}

/// The characters an optional text holds, if it holds any.
pub open spec fn text_view(t: Option<String>) -> Option<Seq<char>> {
    match t {
        Some(s) => Some(s@),
        None => None,
    }
}

/// The character sequences a list of texts holds, in order.
pub open spec fn texts_view(ts: Seq<String>) -> Seq<Seq<char>> {
    ts.map_values(|s: String| s@)
}

/// Two lesson records mean the same thing: every field agrees, strings by
/// their contents.
pub open spec fn lesson_eq(a: LessonInfo, b: LessonInfo) -> bool {
    &&& a.status == b.status
    &&& a.datetime == b.datetime
    &&& a.subject@ == b.subject@
    &&& a.subject_status == b.subject_status
    &&& a.teacher@ == b.teacher@
    &&& a.teacher_status == b.teacher_status
    &&& a.room@ == b.room@
    &&& a.room_status == b.room_status
    &&& text_view(a.lesson_info) == text_view(b.lesson_info)
    &&& text_view(a.lesson_text) == text_view(b.lesson_text)
    &&& text_view(a.substitution_text) == text_view(b.substitution_text)
    &&& text_view(a.notes) == text_view(b.notes)
    &&& texts_view(a.texts@) == texts_view(b.texts@)
}

/// Content equality of two strings.
pub(crate) fn text_eq(a: &String, b: &String) -> (r: bool)
    ensures
        r == (a@ == b@),
{
    a.eq(b)
}

/// Content equality of two optional texts.
pub(crate) fn option_text_eq(a: &Option<String>, b: &Option<String>) -> (r: bool)
    ensures
        r == (text_view(*a) == text_view(*b)),
{
    match (a, b) {
        (None, None) => true,
        (Some(x), Some(y)) => x.eq(y),
        _ => false,
    }
}

/// Content equality of two text lists, order included.
pub(crate) fn texts_eq(a: &Vec<String>, b: &Vec<String>) -> (r: bool)
    ensures
        r == (texts_view(a@) == texts_view(b@)),
{
    if a.len() != b.len() {
        assert(texts_view(a@).len() != texts_view(b@).len());
        return false;
    }
    let mut i: usize = 0;
    while i < a.len()
        invariant
            i <= a@.len(),
            a@.len() == b@.len(),
            forall|j: int| 0 <= j < i ==> a@[j]@ == b@[j]@,
        decreases a@.len() - i,
    {
        if !text_eq(&a[i], &b[i]) {
            assert(texts_view(a@)[i as int] != texts_view(b@)[i as int]);
            return false;
        }
        i += 1;
    }
    assert(texts_view(a@) =~= texts_view(b@));
    true
}

impl PartialEq for LessonInfo {
    fn eq(&self, other: &Self) -> bool {
        self.status == other.status && self.datetime == other.datetime && text_eq(
            &self.subject,
            &other.subject,
        ) && self.subject_status == other.subject_status && text_eq(&self.teacher, &other.teacher)
            && self.teacher_status == other.teacher_status && text_eq(&self.room, &other.room)
            && self.room_status == other.room_status && option_text_eq(
            &self.lesson_info,
            &other.lesson_info,
        ) && option_text_eq(&self.lesson_text, &other.lesson_text) && option_text_eq(
            &self.substitution_text,
            &other.substitution_text,
        ) && option_text_eq(&self.notes, &other.notes) && texts_eq(&self.texts, &other.texts)
    }
}

impl vstd::std_specs::cmp::PartialEqSpecImpl for LessonInfo {
    open spec fn obeys_eq_spec() -> bool {
        true
    }

    open spec fn eq_spec(&self, other: &LessonInfo) -> bool {
        lesson_eq(*self, *other)
    }
}

impl Eq for LessonInfo {}

} // verus!
