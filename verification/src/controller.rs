//! The poll-cycle controller: owns the baseline snapshot of the tracked
//! day, decides when to compare, when to adopt and when to discard, and
//! counts consecutive cycle failures.

use vstd::prelude::*;

use crate::datetime::{date_succ, date_valid, next_day, Date};
use crate::diff::{diff, diff_kinds, ChangeKind};
use crate::error::Error;
use crate::{lesson_eq, LessonInfo};

verus! {

/// How many cycles may fail in a row before the process must shut down.
pub const MAX_CONSECUTIVE_FAILURES: u32 = 5;

/// From this local hour on, a cycle polls tomorrow instead of today.
pub const ROLLOVER_HOUR: u8 = 18;

/// How long a session token stays usable, in seconds.
pub const SESSION_MAX_SECONDS: u64 = 840;

/// One notification the controller hands to the sink: which lesson of the
/// new snapshot changed, and how.
#[derive(Debug, Clone, Copy, PartialEq, Eq, Structural)]
pub struct Notification {
    pub lesson_index: usize,
    pub kind: ChangeKind,
}

/// Whether the controller holds a comparison point, and for which date.
#[derive(Debug)]
pub enum BaselineState {
    NoBaseline,
    Baseline { date: Date, lessons: Vec<LessonInfo> },
}

/// The poll-cycle controller's whole state.
#[derive(Debug)]
pub struct Controller {
    pub state: BaselineState,
    pub failures: u32,
}

/// The classifications of one lesson pair, tagged with the lesson's index.
pub open spec fn tag_kinds(index: usize, kinds: Seq<ChangeKind>) -> Seq<Notification> {
    kinds.map_values(|k: ChangeKind| (Notification { lesson_index: index, kind: k }))
}

/// The notifications one lesson pair contributes.
pub open spec fn pair_notifications(index: usize, old: LessonInfo, new: LessonInfo) -> Seq<
    Notification,
> {
    tag_kinds(index, diff_kinds(old, new))
}

/// The notifications the first `n` lesson pairs contribute, in order.
pub open spec fn day_notifications_upto(
    old: Seq<LessonInfo>,
    new: Seq<LessonInfo>,
    n: int,
) -> Seq<Notification>
    decreases n,
{
    if n <= 0 {
        Seq::empty()
    } else {
        day_notifications_upto(old, new, n - 1) + pair_notifications(
            (n - 1) as usize,
            old[n - 1],
            new[n - 1],
        )
    }
}

/// Every notification a positional comparison of two equally long lesson
/// lists produces.
pub open spec fn day_notifications(old: Seq<LessonInfo>, new: Seq<LessonInfo>) -> Seq<
    Notification,
> {
    day_notifications_upto(old, new, old.len() as int)
}

/// Whether any lesson pair differs at all, tracked or not.
pub open spec fn any_lesson_changed(old: Seq<LessonInfo>, new: Seq<LessonInfo>) -> bool {
    exists|i: int| 0 <= i < old.len() && !lesson_eq(old[i], new[i])
}

/// Appends one lesson's classifications to the notification list, tagged
/// with the lesson's index.
fn append_pair_notifications(notes: &mut Vec<Notification>, index: usize, kinds: &Vec<ChangeKind>)
    ensures
        final(notes)@ == old(notes)@ + tag_kinds(index, kinds@),
{
    let mut j: usize = 0;
    while j < kinds.len()
        invariant
            j <= kinds@.len(),
            notes@ == old(notes)@ + tag_kinds(index, kinds@.take(j as int)),
        decreases kinds@.len() - j,
    {
        notes.push(Notification { lesson_index: index, kind: kinds[j] });
        proof {
            assert(tag_kinds(index, kinds@.take(j as int + 1)) =~= tag_kinds(
                index,
                kinds@.take(j as int),
            ) + seq![(Notification { lesson_index: index, kind: kinds@[j as int] })]);
        }
        j += 1;
    }
    proof {
        assert(kinds@.take(kinds@.len() as int) =~= kinds@);
    }
}

impl Controller {
    /// A fresh controller: no baseline, no failures.
    pub fn new() -> (r: Controller)
        ensures
            r.state is NoBaseline,
            r.failures == 0,
    {
        Controller { state: BaselineState::NoBaseline, failures: 0 }
    }

    /// Whether the consecutive-failure threshold has been reached, which
    /// is fatal to the process.
    pub fn is_fatal(&self) -> (r: bool)
        ensures
            r == (self.failures >= MAX_CONSECUTIVE_FAILURES),
    {
        self.failures >= MAX_CONSECUTIVE_FAILURES
    }

    /// Records a cycle that failed before a day could be applied. The
    /// counter saturates at the threshold; the baseline is untouched.
    pub fn record_failure(&mut self) -> (fatal: bool)
        ensures
            final(self).state == old(self).state,
            final(self).failures == (if old(self).failures < MAX_CONSECUTIVE_FAILURES {
                old(self).failures + 1
            } else {
                old(self).failures as int
            }),
            fatal == (final(self).failures >= MAX_CONSECUTIVE_FAILURES),
    {
        if self.failures < MAX_CONSECUTIVE_FAILURES {
            self.failures = self.failures + 1;
        }
        self.failures >= MAX_CONSECUTIVE_FAILURES
    }

    /// Feeds one successfully fetched and projected day into the
    /// controller.
    ///
    /// Without a baseline, or on a date change, the new list is adopted
    /// silently. On the tracked date the lists must be equally long — a
    /// mismatch is a hard error that leaves the baseline untouched and
    /// counts as a failed cycle. Otherwise the lists are compared pair by
    /// pair; every classification is returned, and any difference at all
    /// invalidates the baseline so that the next cycle re-adopts a fresh
    /// one.
    pub fn apply_day(&mut self, date: Date, lessons: Vec<LessonInfo>) -> (r: Result<
        Vec<Notification>,
        Error,
    >)
        ensures
            old(self).state is NoBaseline ==> (r matches Ok(v)
                && v@ == Seq::<Notification>::empty()
                && final(self).state == (BaselineState::Baseline { date, lessons })
                && final(self).failures == 0),
            old(self).state matches BaselineState::Baseline { date: prev_date, lessons: prev }
                ==> (prev_date != date ==> (r matches Ok(v)
                && v@ == Seq::<Notification>::empty()
                && final(self).state == (BaselineState::Baseline { date, lessons })
                && final(self).failures == 0)),
            old(self).state matches BaselineState::Baseline { date: prev_date, lessons: prev }
                ==> ((prev_date == date && prev@.len() != lessons@.len()) ==> (r == Err::<
                Vec<Notification>,
                Error,
            >(
                (Error::LessonCountMismatch {
                    previous: prev@.len() as usize,
                    current: lessons@.len() as usize,
                }),
            )
                && final(self).state == old(self).state
                && final(self).failures == (if old(self).failures < MAX_CONSECUTIVE_FAILURES {
                old(self).failures + 1
            } else {
                old(self).failures as int
            }))),
            old(self).state matches BaselineState::Baseline { date: prev_date, lessons: prev }
                ==> ((prev_date == date && prev@.len() == lessons@.len()) ==> (r matches Ok(v)
                && v@ == day_notifications(prev@, lessons@)
                && final(self).failures == 0
                && final(self).state == (if any_lesson_changed(prev@, lessons@) {
                BaselineState::NoBaseline
            } else {
                old(self).state
            }))),
    {
        match &self.state {
            BaselineState::NoBaseline => {
                self.state = BaselineState::Baseline { date, lessons };
                self.failures = 0;
                Ok(Vec::new())
            },
            BaselineState::Baseline { date: prev_date, lessons: prev } => {
                if !(*prev_date == date) {
                    self.state = BaselineState::Baseline { date, lessons };
                    self.failures = 0;
                    return Ok(Vec::new());
                }
                if prev.len() != lessons.len() {
                    let e = Error::LessonCountMismatch {
                        previous: prev.len(),
                        current: lessons.len(),
                    };
                    if self.failures < MAX_CONSECUTIVE_FAILURES {
                        self.failures = self.failures + 1;
                    }
                    return Err(e);
                }
                let mut notes: Vec<Notification> = Vec::new();
                let mut changed = false;
                let mut i: usize = 0;
                while i < lessons.len()
                    invariant
                        i <= lessons@.len(),
                        prev@.len() == lessons@.len(),
                        notes@ == day_notifications_upto(prev@, lessons@, i as int),
                        changed == exists|j: int|
                            0 <= j < i && !lesson_eq(prev@[j], lessons@[j]),
                    decreases lessons@.len() - i,
                {
                    let (pair_changed, kinds) = diff(&prev[i], &lessons[i]);
                    append_pair_notifications(&mut notes, i, &kinds);
                    if pair_changed {
                        changed = true;
                    }
                    i += 1;
                }
                if changed {
                    self.state = BaselineState::NoBaseline;
                }
                self.failures = 0;
                Ok(notes)
            },
        }
    }
}

/// The date a cycle should poll: today, or tomorrow from the rollover hour
/// on, so that late-evening polling previews the next day.
pub fn relevant_date(today: Date, hour: u8) -> (r: Date)
    requires
        date_valid(today),
        hour < 24,
        hour >= ROLLOVER_HOUR ==> !(today.year == 9999 && today.month == 12 && today.day == 31),
    ensures
        r == (if hour >= ROLLOVER_HOUR {
            date_succ(today)
        } else {
            today
        }),
        date_valid(r),
{
    if hour >= ROLLOVER_HOUR {
        next_day(today)
    } else {
        today
    }
}

/// Seconds to sleep before the next cycle, by local hour: tightest just
/// before the first morning lessons, relaxed outside school hours.
pub fn poll_interval_secs(hour: u8) -> (r: u64)
    requires
        hour < 24,
    ensures
        r == (if hour == 7 {
            4u64
        } else if 6 <= hour < 11 {
            20u64
        } else if 11 <= hour < 16 {
            40u64
        } else {
            200u64
        }),
{
    if hour == 7 {
        4
    } else if hour >= 6 && hour < 11 {
        20
    } else if hour >= 11 && hour < 16 {
        40
    } else {
        200
    }
}

/// Whether a session begun at `login_secs` has outlived its maximum
/// lifetime at `now_secs`, both read from the same monotonic clock.
pub fn session_expired(login_secs: u64, now_secs: u64) -> (r: bool)
    requires
        login_secs <= now_secs,
    ensures
        r == (now_secs - login_secs >= SESSION_MAX_SECONDS),
{
    now_secs - login_secs >= SESSION_MAX_SECONDS
}

} // verus!
