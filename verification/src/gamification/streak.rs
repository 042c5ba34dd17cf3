//! Daily streak tracking, with day differences computed through a Julian
//! day-number formula.

use vstd::prelude::*;

use crate::srs::scheduler::dashes_from;
use crate::util::{all_digits, dec_val, parse_digits, str_eq};

verus! {

/// Truncating division, as the `/` of the executable code on possibly
/// negative numerators.
pub open spec fn tdiv(a: int, b: int) -> int {
    if a >= 0 {
        a / b
    } else {
        -((-a) / b)
    }
}

/// The Julian day number of a (year, month, day) triple.
pub open spec fn julian_day(y: int, m: int, d: int) -> int {
    let a = tdiv(14 - m, 12);
    let yy = y + 4800 - a;
    let mm = m + 12 * a - 3;
    d + tdiv(153 * mm + 2, 5) + 365 * yy + tdiv(yy, 4) - tdiv(yy, 100) + tdiv(yy, 400) - 32045
}

/// The parse of a `YYYY-MM-DD` string into numeric fields: exactly two
/// dashes, all three parts non-empty digit strings in range.
pub open spec fn date_fields(s: Seq<char>) -> Option<(int, int, int)> {
    let ds = dashes_from(s, 0);
    if ds.len() != 2 {
        None
    } else {
        let yp = s.subrange(0, ds[0]);
        let mp = s.subrange(ds[0] + 1, ds[1]);
        let dp = s.subrange(ds[1] + 1, s.len() as int);
        if yp.len() > 0 && all_digits(yp) && dec_val(yp) <= i32::MAX && mp.len() > 0 && all_digits(
            mp,
        ) && dec_val(mp) <= u32::MAX && dp.len() > 0 && all_digits(dp) && dec_val(dp) <= u32::MAX {
            Some((dec_val(yp) as int, dec_val(mp) as int, dec_val(dp) as int))
        } else {
            None
        }
    }
}

/// The signed number of days from `start` to `end`: the difference of
/// their Julian day numbers, or zero when either date does not parse.
pub open spec fn days_between_spec(start: Seq<char>, end: Seq<char>) -> int {
    match (date_fields(start), date_fields(end)) {
        (Some(a), Some(b)) => julian_day(b.0, b.1, b.2) - julian_day(a.0, a.1, a.2),
        _ => 0,
    }
}

/// Calculate days between two ISO dates (YYYY-MM-DD); positive when
/// `end_date` is after `start_date`, zero when either fails to parse.
pub fn days_between(start_date: &str, end_date: &str) -> (r: i64)
    ensures
        r == days_between_spec(start_date@, end_date@),
{
    let a = parse_fields_pub(start_date);
    let b = parse_fields_pub(end_date);
    match (a, b) {
        (Some((y1, m1, d1)), Some((y2, m2, d2))) => {
            julian_day_exec(y2, m2, d2) - julian_day_exec(y1, m1, d1)
        },
        _ => 0,
    }
}

/// Parses a date string into its three numeric fields.
pub fn parse_fields_pub(s: &str) -> (r: Option<(i64, i64, i64)>)
    ensures
        (match r {
            Some(t) => date_fields(s@) == Some((t.0 as int, t.1 as int, t.2 as int)) && 0 <= t.0
                <= i32::MAX && 0 <= t.1 <= u32::MAX && 0 <= t.2 <= u32::MAX,
            None => date_fields(s@) is None,
        }),
{
    let len = s.unicode_len();
    let mut dashes: Vec<usize> = Vec::new();
    let mut i: usize = 0;
    while i < len
        invariant
            len == s@.len(),
            i <= len,
            dashes_from(s@, 0) =~= dashes@.map_values(|u: usize| u as int) + dashes_from(
                s@,
                i as int,
            ),
            forall|k: int| 0 <= k < dashes@.len() ==> #[trigger] dashes@[k] < i,
            forall|k1: int, k2: int| 0 <= k1 < k2 < dashes@.len() ==> dashes@[k1] < dashes@[k2],
        decreases len - i,
    {
        let c = s.get_char(i);
        if c == '-' {
            let ghost old_d = dashes@;
            dashes.push(i);
            proof {
                assert(dashes@.map_values(|u: usize| u as int) =~= old_d.map_values(
                    |u: usize| u as int,
                ).push(i as int));
                assert(dashes_from(s@, i as int) == seq![i as int] + dashes_from(s@, i as int + 1));
                assert(old_d.map_values(|u: usize| u as int) + dashes_from(s@, i as int)
                    =~= dashes@.map_values(|u: usize| u as int) + dashes_from(s@, i as int + 1));
            }
        } else {
            proof {
                assert(dashes_from(s@, i as int) == dashes_from(s@, i as int + 1));
            }
        }
        i = i + 1;
    }
    proof {
        assert(dashes_from(s@, len as int) =~= Seq::<int>::empty());
        assert(dashes_from(s@, 0) =~= dashes@.map_values(|u: usize| u as int));
    }
    if dashes.len() != 2 {
        return None;
    }
    let d0 = dashes[0];
    let d1 = dashes[1];
    assert(d0 < d1 < len);
    let year_part = s.substring_char(0, d0);
    let month_part = s.substring_char(d0 + 1, d1);
    let day_part = s.substring_char(d1 + 1, len);
    let y = parse_digits(year_part, i32::MAX as u64);
    let m = parse_digits(month_part, u32::MAX as u64);
    let d = parse_digits(day_part, u32::MAX as u64);
    match (y, m, d) {
        (Some(yv), Some(mv), Some(dv)) => Some((yv as i64, mv as i64, dv as i64)),
        _ => None,
    }
}

/// The Julian day number, executable.
fn julian_day_exec(y: i64, m: i64, d: i64) -> (r: i64)
    requires
        0 <= y <= i32::MAX,
        0 <= m <= u32::MAX,
        0 <= d <= u32::MAX,
    ensures
        r == julian_day(y as int, m as int, d as int),
{
    let a: i64 = if 14 - m >= 0 {
        (14 - m) / 12
    } else {
        -((m - 14) / 12)
    };
    let yy: i64 = y + 4800 - a;
    let mm: i64 = m + 12 * a - 3;
    proof {
        assert(a == tdiv(14 - m as int, 12));
    }
    let t1: i64 = if 153 * mm + 2 >= 0 {
        (153 * mm + 2) / 5
    } else {
        -((-(153 * mm + 2)) / 5)
    };
    proof {
        assert(t1 == tdiv(153 * (mm as int) + 2, 5));
    }
    let t2: i64 = if yy >= 0 {
        yy / 4
    } else {
        -((-yy) / 4)
    };
    let t3: i64 = if yy >= 0 {
        yy / 100
    } else {
        -((-yy) / 100)
    };
    let t4: i64 = if yy >= 0 {
        yy / 400
    } else {
        -((-yy) / 400)
    };
    d + t1 + 365 * yy + t2 - t3 + t4 - 32045
}

/// Daily streak tracking.
#[derive(Debug, Clone, PartialEq)]
pub struct StreakTracker {
    /// Current streak count (days in a row).
    current_streak: u32,
    /// Longest streak ever achieved.
    longest_streak: u32,
    /// Date of last activity (ISO format: YYYY-MM-DD).
    last_activity_date: Option<String>,
    /// Whether today's activity has been completed.
    completed_today: bool,
}

/// Result of recording a streak activity.
#[derive(Debug, Clone, PartialEq)]
pub struct StreakUpdate {
    /// Current streak after update.
    pub current_streak: u32,
    /// Whether the streak was extended.
    pub streak_extended: bool,
    /// Whether a previous streak was broken.
    pub streak_broken: bool,
    /// Whether this is a new personal record.
    pub is_new_record: bool,
}

/// Current streak status.
#[derive(Debug, Clone, Copy, PartialEq, Eq, Structural)]
pub enum StreakStatus {
    /// No streak started yet.
    NoStreak,
    /// Activity completed today - streak safe.
    CompletedToday,
    /// Need to complete today to maintain streak.
    AtRisk,
    /// Streak was broken (missed a day).
    Broken,
}

impl StreakTracker {
    /// The current streak, for specifications.
    pub closed spec fn spec_current(self) -> u32 {
        self.current_streak
    }

    /// The longest streak, for specifications.
    pub closed spec fn spec_longest(self) -> u32 {
        self.longest_streak
    }

    /// The last activity date, for specifications.
    pub closed spec fn spec_last_date(self) -> Option<String> {
        self.last_activity_date
    }

    /// Whether today's activity is done, for specifications.
    pub closed spec fn spec_completed_today(self) -> bool {
        self.completed_today
    }

    /// Create a new streak tracker.
    pub fn new() -> (r: Self)
        ensures
            r.spec_current() == 0,
            r.spec_longest() == 0,
            r.spec_last_date() is None,
            !r.spec_completed_today(),
    {
        Self {
            current_streak: 0,
            longest_streak: 0,
            last_activity_date: None,
            completed_today: false,
        }
    }

    /// Create with existing values (for loading saved progress).
    pub fn with_values(current_streak: u32, longest_streak: u32, last_activity_date: Option<String>)
        -> (r: Self)
        ensures
            r.spec_current() == current_streak,
            r.spec_longest() == longest_streak,
            r.spec_last_date() == last_activity_date,
            !r.spec_completed_today(),
    {
        Self { current_streak, longest_streak, last_activity_date, completed_today: false }
    }

    /// Record activity for the given date: a first or consecutive-day
    /// activity extends the streak, a gap resets it to one, a repeat of the
    /// same day or a date in the past changes nothing.
    pub fn record_activity(&mut self, current_date: &str) -> (r: StreakUpdate)
        requires
            old(self).spec_current() < u32::MAX,
        ensures
            ({
                let prev = old(self).spec_current();
                let updated = (match old(self).spec_last_date() {
                    None => true,
                    Some(last) => last@ != current_date@ && days_between_spec(last@, current_date@)
                        >= 1,
                });
                &&& (match old(self).spec_last_date() {
                    None => final (self).spec_current() == 1,
                    Some(last) => {
                        let diff = days_between_spec(last@, current_date@);
                        &&& (last@ == current_date@ ==> final (self).spec_current() == prev
                            && final (self).spec_last_date() == old(self).spec_last_date())
                        &&& (last@ != current_date@ && diff == 1 ==> final (self).spec_current()
                            == prev + 1)
                        &&& (last@ != current_date@ && diff > 1 ==> final (self).spec_current()
                            == 1)
                        &&& (last@ != current_date@ && diff < 1 ==> final (self).spec_current()
                            == prev && final (self).spec_last_date() == old(self).spec_last_date())
                    },
                })
                &&& (updated ==> {
                    &&& final (self).spec_last_date() matches Some(d) && d@ == current_date@
                    &&& final (self).spec_longest() == (if final (self).spec_current() > old(
                        self,
                    ).spec_longest() {
                        final (self).spec_current()
                    } else {
                        old(self).spec_longest()
                    })
                    &&& r.is_new_record == (final (self).spec_current() > old(
                        self,
                    ).spec_longest())
                    &&& r.streak_extended == (final (self).spec_current() > prev)
                    &&& r.streak_broken == (prev > 1 && final (self).spec_current() == 1)
                })
                &&& (!updated ==> {
                    &&& final (self).spec_longest() == old(self).spec_longest()
                    &&& final (self).spec_current() == prev
                    &&& !r.is_new_record
                    &&& !r.streak_extended
                    &&& !r.streak_broken
                })
                &&& r.current_streak == final (self).spec_current()
                &&& final (self).spec_completed_today() || (!updated && (match old(
                    self,
                ).spec_last_date() {
                    Some(last) => last@ != current_date@,
                    None => false,
                }) && final (self).spec_completed_today() == old(self).spec_completed_today())
            }),
    {
        let prev = self.current_streak;
        let mut changed = true;
        match &self.last_activity_date {
            None => {
                self.current_streak = 1;
                self.completed_today = true;
            },
            Some(last_date) => {
                if str_eq(last_date.as_str(), current_date) {
                    self.completed_today = true;
                    changed = false;
                } else {
                    let days_since = days_between(last_date.as_str(), current_date);
                    if days_since == 1 {
                        self.current_streak = self.current_streak + 1;
                        self.completed_today = true;
                    } else if days_since > 1 {
                        self.current_streak = 1;
                        self.completed_today = true;
                    } else {
                        changed = false;
                    }
                }
            },
        }
        if !changed {
            return StreakUpdate {
                current_streak: self.current_streak,
                streak_extended: false,
                streak_broken: false,
                is_new_record: false,
            };
        }
        self.last_activity_date = Some(current_date.to_owned());
        let is_new_record = self.current_streak > self.longest_streak;
        if is_new_record {
            self.longest_streak = self.current_streak;
        }
        StreakUpdate {
            current_streak: self.current_streak,
            streak_extended: self.current_streak > prev,
            streak_broken: prev > 1 && self.current_streak == 1,
            is_new_record,
        }
    }

    /// Check if the streak is at risk (no activity today).
    pub fn check_streak_status(&self, current_date: &str) -> (r: StreakStatus)
        ensures
            (match self.spec_last_date() {
                None => r == StreakStatus::NoStreak,
                Some(last) => {
                    &&& (last@ == current_date@ ==> r == StreakStatus::CompletedToday)
                    &&& (last@ != current_date@ && days_between_spec(last@, current_date@) == 1
                        ==> r == StreakStatus::AtRisk)
                    &&& (last@ != current_date@ && days_between_spec(last@, current_date@) != 1
                        ==> r == StreakStatus::Broken)
                },
            }),
    {
        match &self.last_activity_date {
            None => StreakStatus::NoStreak,
            Some(last_date) => {
                if str_eq(last_date.as_str(), current_date) {
                    StreakStatus::CompletedToday
                } else {
                    let days_since = days_between(last_date.as_str(), current_date);
                    if days_since == 1 {
                        StreakStatus::AtRisk
                    } else {
                        StreakStatus::Broken
                    }
                }
            },
        }
    }

    /// Get current streak count.
    pub fn current_streak(&self) -> (r: u32)
        ensures
            r == self.spec_current(),
    {
        self.current_streak
    }

    /// Get longest streak ever.
    pub fn longest_streak(&self) -> (r: u32)
        ensures
            r == self.spec_longest(),
    {
        self.longest_streak
    }

    /// Check if activity was completed today.
    pub fn completed_today(&self) -> (r: bool)
        ensures
            r == self.spec_completed_today(),
    {
        self.completed_today
    }

    /// Get the last activity date.
    pub fn last_activity_date(&self) -> (r: Option<&str>)
        ensures
            (match r {
                Some(d) => self.spec_last_date() matches Some(s) && s@ == d@,
                None => self.spec_last_date() is None,
            }),
    {
        match &self.last_activity_date {
            Some(d) => Some(d.as_str()),
            None => None,
        }
    }

    /// Reset the tracker.
    pub fn reset(&mut self)
        ensures
            final (self).spec_current() == 0,
            final (self).spec_longest() == 0,
            final (self).spec_last_date() is None,
            !final (self).spec_completed_today(),
    {
        self.current_streak = 0;
        self.longest_streak = 0;
        self.last_activity_date = None;
        self.completed_today = false;
    }
}

} // verus!
