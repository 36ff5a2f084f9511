//! The library's error taxonomy.

use vstd::prelude::*;

use crate::entries::RowType;

verus! {

/// Which part of a webhook URL failed validation.
#[derive(Debug, Clone, Copy, PartialEq, Eq, Structural)]
pub enum UrlPart {
    Scheme,
    Host,
    ApiSegment,
    WebhooksSegment,
}

/// Everything that can go wrong inside the change-detection core.
///
/// Transport and authentication failures happen outside the library; the
/// poll-cycle controller only learns of them as anonymous cycle failures.
#[derive(Debug, Clone, Copy, PartialEq, Eq, Structural)]
pub enum Error {
    /// A position held no slot at all.
    EmptyRow,
    /// A position held more than one slot.
    AmbiguousRow { count: usize },
    /// A slot carried neither a current nor a removed row.
    NoRowValue,
    /// A strict accessor found only a removed row.
    RowRemoved,
    /// A resolved row plays a different role than the position implies.
    UnexpectedRowType { expected: RowType, actual: RowType },
    /// The backend's format version tag is not the one this build expects.
    SchemaMismatch { expected: i32, actual: i32 },
    /// A single-date fetch did not produce exactly one day.
    WrongDayCount { count: usize },
    /// Two snapshots of the same day disagree about the number of lessons.
    LessonCountMismatch { previous: usize, current: usize },
    /// A value that must not be empty was empty.
    EmptyValue,
    /// A value contained a character outside its allowed set.
    InvalidCharacter { found: char },
    /// A session token is not made of exactly three dot-separated parts.
    WrongTokenPartCount { count: usize },
    /// A date field does not match the `YYYY-MM-DD` wire format.
    MalformedDate,
    /// A timestamp field does not match the `YYYY-MM-DDThh:mm` wire format.
    MalformedDateTime,
    /// A fixed part of a webhook URL has the wrong value.
    UrlPartMismatch { part: UrlPart },
    /// A webhook URL does not have exactly the expected path segments.
    WrongSegmentCount { count: usize },
    /// A webhook id is not a decimal number in range.
    InvalidWebhookId,
    /// A webhook URL carries a query where none is allowed.
    UnexpectedQuery,
    /// A webhook URL carries a fragment where none is allowed.
    UnexpectedFragment,
}

} // verus!
