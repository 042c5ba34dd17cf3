//! Per-question attempt tracking and date helpers for practice streaks.

use vstd::prelude::*;

use crate::srs::scheduler::{days_in_month_spec, is_leap_year};
use crate::gamification::streak::date_fields;

verus! {

/// Whether the second date is exactly the calendar day after the first;
/// false when either date does not parse.
pub open spec fn consecutive_day_spec(d1: Seq<char>, d2: Seq<char>) -> bool {
    match (date_fields(d1), date_fields(d2)) {
        (Some(a), Some(b)) => {
            let next = (if a.2 < days_in_month_spec(a.0, a.1) {
                (a.0, a.1, a.2 + 1)
            } else if a.1 < 12 {
                (a.0, a.1 + 1, 1int)
            } else {
                (a.0 + 1, 1int, 1int)
            });
            b == next
        },
        _ => false,
    }
}

/// Check if two dates (in YYYY-MM-DD format) are consecutive days.
pub fn is_consecutive_day(date1: &str, date2: &str) -> (r: bool)
    ensures
        r == consecutive_day_spec(date1@, date2@),
{
    let a = crate::gamification::streak::parse_fields_pub(date1);
    let b = crate::gamification::streak::parse_fields_pub(date2);
    match (a, b) {
        (Some((y1, m1, d1)), Some((y2, m2, d2))) => {
            let dim = days_in_month_exec(y1, m1);
            let (ny, nm, nd): (i64, i64, i64) = if d1 < dim {
                (y1, m1, d1 + 1)
            } else if m1 < 12 {
                (y1, m1 + 1, 1)
            } else {
                (y1 + 1, 1, 1)
            };
            y2 == ny && m2 == nm && d2 == nd
        },
        _ => false,
    }
}

/// Days in a month, over signed integers.
fn days_in_month_exec(y: i64, m: i64) -> (r: i64)
    requires
        0 <= y <= i32::MAX,
        0 <= m <= u32::MAX,
    ensures
        r == days_in_month_spec(y as int, m as int),
{
    if m == 1 || m == 3 || m == 5 || m == 7 || m == 8 || m == 10 || m == 12 {
        31
    } else if m == 4 || m == 6 || m == 9 || m == 11 {
        30
    } else if m == 2 {
        if (y % 4 == 0 && y % 100 != 0) || y % 400 == 0 {
            29
        } else {
            28
        }
    } else {
        30
    }
}

/// An attempt record for answering one question.
#[derive(Debug, Clone, PartialEq)]
pub struct QuestionAttempt {
    /// Question identifier.
    pub question_id: String,
    /// Total attempts.
    pub total_attempts: u32,
    /// Correct attempts.
    pub correct_attempts: u32,
    /// Last attempt was correct.
    pub last_correct: bool,
    /// Consecutive correct answers (for mastery).
    pub consecutive_correct: u32,
}

impl QuestionAttempt {
    /// Create a new question attempt.
    pub fn new(question_id: String) -> (r: Self)
        ensures
            r.question_id == question_id,
            r.total_attempts == 0,
            r.correct_attempts == 0,
            !r.last_correct,
            r.consecutive_correct == 0,
    {
        Self {
            question_id,
            total_attempts: 0,
            correct_attempts: 0,
            last_correct: false,
            consecutive_correct: 0,
        }
    }

    /// Record an attempt: a correct answer extends the consecutive streak,
    /// a wrong one resets it.
    pub fn record(&mut self, is_correct: bool)
        requires
            old(self).total_attempts < u32::MAX,
            old(self).correct_attempts < u32::MAX,
            old(self).consecutive_correct < u32::MAX,
        ensures
            final (self).total_attempts == old(self).total_attempts + 1,
            final (self).last_correct == is_correct,
            final (self).correct_attempts == old(self).correct_attempts + (if is_correct {
                1int
            } else {
                0
            }),
            final (self).consecutive_correct == (if is_correct {
                old(self).consecutive_correct + 1int
            } else {
                0
            }),
            final (self).question_id == old(self).question_id,
    {
        self.total_attempts = self.total_attempts + 1;
        self.last_correct = is_correct;
        if is_correct {
            self.correct_attempts = self.correct_attempts + 1;
            self.consecutive_correct = self.consecutive_correct + 1;
        } else {
            self.consecutive_correct = 0;
        }
    }

    /// Check if the question is mastered (3 consecutive correct answers).
    pub fn is_mastered(&self) -> (r: bool)
        ensures
            r == (self.consecutive_correct >= 3),
    {
        self.consecutive_correct >= 3
    }

    /// Get the accuracy, in hundredths of a percent, rounded down.
    pub fn accuracy(&self) -> (r: u32)
        requires
            self.correct_attempts <= self.total_attempts,
        ensures
            r == crate::srs::card::accuracy_centi_spec(
                self.correct_attempts as int,
                self.total_attempts as int,
            ),
    {
        if self.total_attempts == 0 {
            0
        } else {
            let wide = (self.correct_attempts as u64) * 10000 / (self.total_attempts as u64);
            proof {
                assert(self.correct_attempts as int * 10000 / (self.total_attempts as int) <= 10000)
                    by (nonlinear_arith)
                    requires
                        0 < self.total_attempts as int,
                        0 <= self.correct_attempts as int <= self.total_attempts as int,
                ;
            }
            wide as u32
        }
    }
}

} // verus!
