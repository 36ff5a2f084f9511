//! The entity model: a day's lesson grid as the backend reports it.
//!
//! Values of these types are built fresh from each fetched payload, after the
//! boundary has normalized absent strings to empty strings and absent lists
//! to empty lists, and are discarded once the day has been projected.

use vstd::prelude::*;

pub mod row;

use crate::datetime::{Date, DateTime};
use crate::error::Error;

verus! {

/// The backend format version this build was written against.
///
/// A payload tagged with any other version is rejected outright.
pub const FORMAT_VERSION: i32 = 19;

/// Lifecycle status of a day, a grid entry, or a single row.
#[derive(Debug, Clone, Copy, PartialEq, Eq, Hash, Structural)]
pub enum Status {
    NoData,
    NotAllowed,
    Regular,
    Added,
    Changed,
    Removed,
    Cancelled,
}

/// The text a status is rendered as.
pub open spec fn status_text(s: Status) -> Seq<char> {
    match s {
        Status::NoData => "No Data"@,
        Status::NotAllowed => "Not Allowed"@,
        Status::Regular => "Regular"@,
        Status::Added => "Added"@,
        Status::Changed => "Changed"@,
        Status::Removed => "Removed"@,
        Status::Cancelled => "Cancelled"@,
    }
}

impl Status {
    /// A normal status carries no notification-worthy state of its own.
    pub fn is_normal(self) -> (r: bool)
        ensures
            r == (self is NoData || self is NotAllowed || self is Regular),
    {
        matches!(self, Status::NoData | Status::NotAllowed | Status::Regular)
    }

    /// A human-readable name for the status.
    pub fn text(self) -> (r: &'static str)
        ensures
            r@ == status_text(self),
    {
        match self {
            Status::NoData => "No Data",
            Status::NotAllowed => "Not Allowed",
            Status::Regular => "Regular",
            Status::Added => "Added",
            Status::Changed => "Changed",
            Status::Removed => "Removed",
            Status::Cancelled => "Cancelled",
        }
    }
}

/// What kind of timetable cell a grid entry is.
#[derive(Debug, Clone, Copy, PartialEq, Eq, Hash, Structural)]
pub enum EntryType {
    NormalTeachingPeriod,
    Exam,
    Event,
}

/// Which semantic role a row plays.
#[derive(Debug, Clone, Copy, PartialEq, Eq, Hash, Structural)]
pub enum RowType {
    Subject,
    Teacher,
    Room,
    Info,
}

/// Which free-text channel an entry text belongs to.
#[derive(Debug, Clone, Copy, PartialEq, Eq, Hash, Structural)]
pub enum EntryTextType {
    LessonInfo,
    SubstitutionText,
}

/// The start and end of a grid entry, as naive timestamps.
#[derive(Debug, Clone, PartialEq, Eq)]
pub struct Duration {
    pub start: DateTime,
    pub end: DateTime,
}

/// One named value inside a position slot.
#[derive(Debug, Clone, PartialEq, Eq)]
pub struct Row {
    pub row_type: RowType,
    pub status: Status,
    pub short_name: String,
    pub long_name: String,
    pub display_name: String,
}

/// One position slot: at most one of a current and a removed row is
/// expected, but every combination is handled.
#[derive(Debug, Clone, PartialEq, Eq)]
pub struct RowWrapper {
    pub current: Option<Row>,
    pub removed: Option<Row>,
}

/// One free-text annotation of a grid entry.
#[derive(Debug, Clone, PartialEq, Eq)]
pub struct EntryText {
    pub text_type: EntryTextType,
    pub text: String,
}

/// One timetable cell within a day.
///
/// `position1` carries the subject or an informational row, `position2` the
/// teacher, `position3` the room; each is expected to hold exactly one slot.
#[derive(Debug, Clone, PartialEq, Eq)]
pub struct GridEntry {
    pub duration: Duration,
    pub entry_type: EntryType,
    pub status: Status,
    pub notes_all: String,
    pub position1: Vec<RowWrapper>,
    pub position2: Vec<RowWrapper>,
    pub position3: Vec<RowWrapper>,
    pub texts: Vec<EntryText>,
    pub lesson_text: String,
    pub lesson_info: String,
    pub substitution_text: String,
}

/// A single calendar date's full lesson grid.
#[derive(Debug, Clone, PartialEq, Eq)]
pub struct Day {
    pub date: Date,
    pub status: Status,
    pub grid_entries: Vec<GridEntry>,
}

/// Rejects a payload whose format version tag is not the one this build was
/// written against.
pub fn check_format_version(version: i32) -> (r: Result<(), Error>)
    ensures
        version == FORMAT_VERSION ==> r == Ok::<(), Error>(()),
        version != FORMAT_VERSION ==> r == Err::<(), Error>(
            (Error::SchemaMismatch { expected: FORMAT_VERSION, actual: version }),
        ),
{
    if version == FORMAT_VERSION {
        Ok(())
    } else {
        Err(Error::SchemaMismatch { expected: FORMAT_VERSION, actual: version })
    }
}

/// Accepts the response to a single-date fetch only when it holds exactly
/// one day.
pub fn single_day(days: Vec<Day>) -> (r: Result<Day, Error>)
    ensures
        days@.len() == 1 ==> r == Ok::<Day, Error>(days@[0]),
        days@.len() != 1 ==> r == Err::<Day, Error>(
            (Error::WrongDayCount { count: days@.len() as usize }),
        ),
{
    let count = days.len();
    if count == 1 {
        let mut rest = days;
        let day = rest.pop().unwrap();
        Ok(day)
    } else {
        Err(Error::WrongDayCount { count })
    }
}

/// Boundary normalization: a string field absent from the wire becomes the
/// empty string, so downstream logic never branches on optionality.
pub fn string_or_empty(s: Option<String>) -> (r: String)
    ensures
        s matches Some(inner) ==> r == inner,
        s is None ==> r@ == Seq::<char>::empty(),
{
    match s {
        Some(inner) => inner,
        None => String::new(),
    }
}

/// Boundary normalization: a list field absent from the wire becomes the
/// empty list.
pub fn vec_or_empty<T>(v: Option<Vec<T>>) -> (r: Vec<T>)
    ensures
        v matches Some(inner) ==> r == inner,
        v is None ==> r@ == Seq::<T>::empty(),
{
    match v {
        Some(inner) => inner,
        None => Vec::new(),
    }
}

} // verus!
