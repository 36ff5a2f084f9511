//! The row resolver: one authoritative row out of an ambiguous position.
//!
//! A position is a sequence of slots that is expected to hold exactly one
//! slot, and a slot may hold a current row, a removed row, both, or
//! neither. Resolution picks the single authoritative row or fails, and it
//! records whether the value came from the removed channel.

use vstd::prelude::*;

use crate::entries::{GridEntry, Row, RowType, RowWrapper};
use crate::error::Error;

verus! {

/// The row a single slot carries: the current one if present, otherwise the
/// removed one flagged as removed, otherwise nothing.
pub open spec fn slot_row(w: RowWrapper) -> Option<(Row, bool)> {
    match w.current {
        Some(row) => Some((row, false)),
        None => match w.removed {
            Some(row) => Some((row, true)),
            None => None,
        },
    }
}

/// The outcome of resolving a position: the single authoritative row plus
/// whether it came from the removed channel, or the failure.
pub open spec fn resolve_slots(slots: Seq<RowWrapper>, expected: RowType) -> Result<
    (Row, bool),
    Error,
> {
    if slots.len() == 0 {
        Err(Error::EmptyRow)
    } else if slots.len() != 1 {
        Err(Error::AmbiguousRow { count: slots.len() as usize })
    } else {
        match slot_row(slots[0]) {
            None => Err(Error::NoRowValue),
            Some((row, is_removed)) => if row.row_type != expected {
                Err(Error::UnexpectedRowType { expected, actual: row.row_type })
            } else {
                Ok((row, is_removed))
            },
        }
    }
}

/// Resolution for callers that need a present value: a row that only
/// survives in the removed channel is itself a failure.
pub open spec fn resolve_slots_strict(slots: Seq<RowWrapper>, expected: RowType) -> Result<
    Row,
    Error,
> {
    match resolve_slots(slots, expected) {
        Err(e) => Err(e),
        Ok((row, is_removed)) => if is_removed {
            Err(Error::RowRemoved)
        } else {
            Ok(row)
        },
    }
}

/// A position with no slot or with several slots never resolves, whatever
/// row type is expected.
pub proof fn lemma_resolve_requires_single_slot(slots: Seq<RowWrapper>, expected: RowType)
    requires
        slots.len() != 1,
    ensures
        resolve_slots(slots, expected) is Err,
        resolve_slots_strict(slots, expected) is Err,
{
}

/// A slot holding only a removed row of the expected type resolves
/// non-strictly to that row flagged as removed, and strictly to the
/// removed-row failure.
pub proof fn lemma_removed_only_slot(slot: RowWrapper, expected: RowType)
    requires
        slot.current is None,
        slot.removed matches Some(row) && row.row_type == expected,
    ensures
        resolve_slots(seq![slot], expected) == Ok::<(Row, bool), Error>(
            (slot.removed.unwrap(), true),
        ),
        resolve_slots_strict(seq![slot], expected) == Err::<Row, Error>(Error::RowRemoved),
{
}

/// The single slot of a position, or the arity failure.
fn extract_one(position: &Vec<RowWrapper>) -> (r: Result<&RowWrapper, Error>)
    ensures
        match r {
            Ok(w) => position@.len() == 1 && *w == position@[0],
            Err(e) => position@.len() != 1 && e == (if position@.len() == 0 {
                Error::EmptyRow
            } else {
                Error::AmbiguousRow { count: position@.len() as usize }
            }),
        },
{
    match position.len() {
        0 => Err(Error::EmptyRow),
        1 => Ok(&position[0]),
        n => Err(Error::AmbiguousRow { count: n }),
    }
}

/// The row a slot carries, preferring the current over the removed channel.
fn extract_row_with_status(wrapper: &RowWrapper) -> (r: Result<(&Row, bool), Error>)
    ensures
        match r {
            Ok(p) => slot_row(*wrapper) == Some((*p.0, p.1)),
            Err(e) => slot_row(*wrapper) is None && e == Error::NoRowValue,
        },
{
    if let Some(current) = &wrapper.current {
        Ok((current, false))
    } else if let Some(removed) = &wrapper.removed {
        Ok((removed, true))
    } else {
        Err(Error::NoRowValue)
    }
}

/// Demands that a resolved row did not come from the removed channel.
fn ensure_not_removed(pair: (&Row, bool)) -> (r: Result<&Row, Error>)
    ensures
        pair.1 ==> r == Err::<&Row, Error>(Error::RowRemoved),
        !pair.1 ==> r == Ok::<&Row, Error>(pair.0),
{
    let (row, is_removed) = pair;
    if is_removed {
        Err(Error::RowRemoved)
    } else {
        Ok(row)
    }
}

/// Demands that a resolved row plays the role the position implies.
fn assert_row_type(pair: (&Row, bool), expected_type: RowType) -> (r: Result<(&Row, bool), Error>)
    ensures
        pair.0.row_type == expected_type ==> r == Ok::<(&Row, bool), Error>(pair),
        pair.0.row_type != expected_type ==> r == Err::<(&Row, bool), Error>(
            (Error::UnexpectedRowType { expected: expected_type, actual: pair.0.row_type }),
        ),
{
    if !(pair.0.row_type == expected_type) {
        Err(Error::UnexpectedRowType { expected: expected_type, actual: pair.0.row_type })
    } else {
        Ok(pair)
    }
}

/// Non-strict resolution of a position, as [`resolve_slots`] describes it.
fn extract_one_with_type(position: &Vec<RowWrapper>, expected_type: RowType) -> (r: Result<
    (&Row, bool),
    Error,
>)
    ensures
        match r {
            Ok(p) => resolve_slots(position@, expected_type) == Ok::<(Row, bool), Error>(
                (*p.0, p.1),
            ),
            Err(e) => resolve_slots(position@, expected_type) == Err::<(Row, bool), Error>(e),
        },
{
    let wrapper = match extract_one(position) {
        Ok(wrapper) => wrapper,
        Err(e) => { return Err(e) },
    };
    let pair = match extract_row_with_status(wrapper) {
        Ok(pair) => pair,
        Err(e) => { return Err(e) },
    };
    assert_row_type(pair, expected_type)
}

/// Strict resolution of a position, as [`resolve_slots_strict`] describes
/// it.
fn extract_one_strict(position: &Vec<RowWrapper>, expected_type: RowType) -> (r: Result<
    &Row,
    Error,
>)
    ensures
        match r {
            Ok(row) => resolve_slots_strict(position@, expected_type) == Ok::<Row, Error>(*row),
            Err(e) => resolve_slots_strict(position@, expected_type) == Err::<Row, Error>(e),
        },
{
    match extract_one_with_type(position, expected_type) {
        Ok(pair) => ensure_not_removed(pair),
        Err(e) => Err(e),
    }
}

impl GridEntry {
    /// The informational row of the first position, possibly removed.
    pub fn info_maybe_removed(&self) -> (r: Result<(&Row, bool), Error>)
        ensures
            match r {
                Ok(p) => resolve_slots(self.position1@, RowType::Info) == Ok::<(Row, bool), Error>(
                    (*p.0, p.1),
                ),
                Err(e) => resolve_slots(self.position1@, RowType::Info) == Err::<
                    (Row, bool),
                    Error,
                >(e),
            },
    {
        extract_one_with_type(&self.position1, RowType::Info)
    }

    /// The informational row of the first position; a removed row fails.
    pub fn info(&self) -> (r: Result<&Row, Error>)
        ensures
            match r {
                Ok(row) => resolve_slots_strict(self.position1@, RowType::Info) == Ok::<
                    Row,
                    Error,
                >(*row),
                Err(e) => resolve_slots_strict(self.position1@, RowType::Info) == Err::<
                    Row,
                    Error,
                >(e),
            },
    {
        extract_one_strict(&self.position1, RowType::Info)
    }

    /// The subject row of the first position, possibly removed.
    pub fn subject_maybe_removed(&self) -> (r: Result<(&Row, bool), Error>)
        ensures
            match r {
                Ok(p) => resolve_slots(self.position1@, RowType::Subject) == Ok::<
                    (Row, bool),
                    Error,
                >((*p.0, p.1)),
                Err(e) => resolve_slots(self.position1@, RowType::Subject) == Err::<
                    (Row, bool),
                    Error,
                >(e),
            },
    {
        extract_one_with_type(&self.position1, RowType::Subject)
    }

    /// The subject row of the first position; a removed row fails.
    pub fn subject(&self) -> (r: Result<&Row, Error>)
        ensures
            match r {
                Ok(row) => resolve_slots_strict(self.position1@, RowType::Subject) == Ok::<
                    Row,
                    Error,
                >(*row),
                Err(e) => resolve_slots_strict(self.position1@, RowType::Subject) == Err::<
                    Row,
                    Error,
                >(e),
            },
    {
        extract_one_strict(&self.position1, RowType::Subject)
    }

    /// The teacher row of the second position, possibly removed.
    pub fn teacher_maybe_removed(&self) -> (r: Result<(&Row, bool), Error>)
        ensures
            match r {
                Ok(p) => resolve_slots(self.position2@, RowType::Teacher) == Ok::<
                    (Row, bool),
                    Error,
                >((*p.0, p.1)),
                Err(e) => resolve_slots(self.position2@, RowType::Teacher) == Err::<
                    (Row, bool),
                    Error,
                >(e),
            },
    {
        extract_one_with_type(&self.position2, RowType::Teacher)
    }

    /// The teacher row of the second position; a removed row fails.
    pub fn teacher(&self) -> (r: Result<&Row, Error>)
        ensures
            match r {
                Ok(row) => resolve_slots_strict(self.position2@, RowType::Teacher) == Ok::<
                    Row,
                    Error,
                >(*row),
                Err(e) => resolve_slots_strict(self.position2@, RowType::Teacher) == Err::<
                    Row,
                    Error,
                >(e),
            },
    {
        extract_one_strict(&self.position2, RowType::Teacher)
    }

    /// The room row of the third position, possibly removed.
    pub fn room_maybe_removed(&self) -> (r: Result<(&Row, bool), Error>)
        ensures
            match r {
                Ok(p) => resolve_slots(self.position3@, RowType::Room) == Ok::<(Row, bool), Error>(
                    (*p.0, p.1),
                ),
                Err(e) => resolve_slots(self.position3@, RowType::Room) == Err::<
                    (Row, bool),
                    Error,
                >(e),
            },
    {
        extract_one_with_type(&self.position3, RowType::Room)
    }

    /// The room row of the third position; a removed row fails.
    pub fn room(&self) -> (r: Result<&Row, Error>)
        ensures
            match r {
                Ok(row) => resolve_slots_strict(self.position3@, RowType::Room) == Ok::<
                    Row,
                    Error,
                >(*row),
                Err(e) => resolve_slots_strict(self.position3@, RowType::Room) == Err::<
                    Row,
                    Error,
                >(e),
            },
    {
        extract_one_strict(&self.position3, RowType::Room)
    }
}

} // verus!
