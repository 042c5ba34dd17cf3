//! Daily statistics tracking.  The tracker holds one record per day, kept
//! sorted by date; counters saturate instead of wrapping.

use vstd::prelude::*;

use crate::util::{lex_le, str_eq, str_le};

verus! {

/// Adds with saturation at the top of the range.
fn sat_add(a: u32, b: u32) -> (r: u32)
    ensures
        r == (if a + b <= u32::MAX {
            a + b
        } else {
            u32::MAX as int
        }),
{
    if a <= u32::MAX - b {
        a + b
    } else {
        u32::MAX
    }
}

/// Statistics for a question type.
#[derive(Debug, Clone, PartialEq)]
pub struct QuestionTypeStats {
    pub answered: u32,
    pub correct: u32,
}

impl QuestionTypeStats {
    /// A fresh, all-zero record.
    pub fn new() -> (r: Self)
        ensures
            r.answered == 0,
            r.correct == 0,
    {
        Self { answered: 0, correct: 0 }
    }

    /// Record one answer.
    pub fn record(&mut self, correct: bool)
        ensures
            final (self).answered == (if old(self).answered < u32::MAX {
                old(self).answered + 1
            } else {
                u32::MAX as int
            }),
            final (self).correct == (if correct && old(self).correct < u32::MAX {
                old(self).correct + 1
            } else {
                old(self).correct as int
            }),
    {
        self.answered = sat_add(self.answered, 1);
        if correct {
            self.correct = sat_add(self.correct, 1);
        }
    }

    /// Fold another record into this one.
    pub fn merge(&mut self, other: &QuestionTypeStats)
        ensures
            final (self).answered == (if old(self).answered + other.answered <= u32::MAX {
                old(self).answered + other.answered
            } else {
                u32::MAX as int
            }),
            final (self).correct == (if old(self).correct + other.correct <= u32::MAX {
                old(self).correct + other.correct
            } else {
                u32::MAX as int
            }),
    {
        self.answered = sat_add(self.answered, other.answered);
        self.correct = sat_add(self.correct, other.correct);
    }
}

/// Statistics for a single day.
#[derive(Debug, Clone, PartialEq)]
pub struct DailyStats {
    /// Date in ISO format (YYYY-MM-DD).
    pub date: String,
    /// XP earned this day.
    pub xp_earned: u32,
    /// Number of lessons completed.
    pub lessons_completed: u32,
    /// Time spent learning in seconds.
    pub time_spent_seconds: u32,
    /// Total questions answered.
    pub questions_answered: u32,
    /// Total correct answers.
    pub questions_correct: u32,
    /// SRS reviews completed.
    pub srs_reviews: u32,
    /// SRS reviews correct.
    pub srs_correct: u32,
    /// New words learned.
    pub new_words_learned: u32,
    /// Accuracy by question type, keyed by the type name.
    pub accuracy_by_type: Vec<(String, QuestionTypeStats)>,
    /// Levels practiced, without duplicates.
    pub levels_practiced: Vec<String>,
}

impl DailyStats {
    /// Create new daily stats for a date.
    pub fn new(date: &str) -> (r: Self)
        ensures
            r.date@ == date@,
            r.xp_earned == 0,
            r.lessons_completed == 0,
            r.time_spent_seconds == 0,
            r.questions_answered == 0,
            r.questions_correct == 0,
            r.srs_reviews == 0,
            r.srs_correct == 0,
            r.new_words_learned == 0,
            r.accuracy_by_type@ =~= Seq::<(String, QuestionTypeStats)>::empty(),
            r.levels_practiced@ =~= Seq::<String>::empty(),
    {
        Self {
            date: date.to_owned(),
            xp_earned: 0,
            lessons_completed: 0,
            time_spent_seconds: 0,
            questions_answered: 0,
            questions_correct: 0,
            srs_reviews: 0,
            srs_correct: 0,
            new_words_learned: 0,
            accuracy_by_type: Vec::new(),
            levels_practiced: Vec::new(),
        }
    }

    /// Record a lesson completion, remembering the level practiced.
    pub fn record_lesson_completion(
        &mut self,
        xp: u32,
        questions: u32,
        correct: u32,
        time_seconds: u32,
        level: &str,
    )
        ensures
            final (self).xp_earned == (if old(self).xp_earned + xp <= u32::MAX {
                old(self).xp_earned + xp
            } else {
                u32::MAX as int
            }),
            final (self).lessons_completed == (if old(self).lessons_completed < u32::MAX {
                old(self).lessons_completed + 1
            } else {
                u32::MAX as int
            }),
            final (self).questions_answered == (if old(self).questions_answered + questions
                <= u32::MAX {
                old(self).questions_answered + questions
            } else {
                u32::MAX as int
            }),
            final (self).questions_correct == (if old(self).questions_correct + correct
                <= u32::MAX {
                old(self).questions_correct + correct
            } else {
                u32::MAX as int
            }),
            final (self).time_spent_seconds == (if old(self).time_spent_seconds + time_seconds
                <= u32::MAX {
                old(self).time_spent_seconds + time_seconds
            } else {
                u32::MAX as int
            }),
            final (self).date == old(self).date,
            (exists|i: int|
                0 <= i < final (self).levels_practiced@.len() && (
                #[trigger] final (self).levels_practiced@[i])@ == level@),
    {
        self.xp_earned = sat_add(self.xp_earned, xp);
        self.lessons_completed = sat_add(self.lessons_completed, 1);
        self.questions_answered = sat_add(self.questions_answered, questions);
        self.questions_correct = sat_add(self.questions_correct, correct);
        self.time_spent_seconds = sat_add(self.time_spent_seconds, time_seconds);
        let n = self.levels_practiced.len();
        let mut i: usize = 0;
        let mut found = false;
        while i < n
            invariant
                n == self.levels_practiced@.len(),
                i <= n,
                found == exists|k: int|
                    0 <= k < i && (#[trigger] self.levels_practiced@[k])@ == level@,
            decreases n - i,
        {
            if str_eq(self.levels_practiced[i].as_str(), level) {
                found = true;
            }
            i = i + 1;
        }
        if !found {
            self.levels_practiced.push(level.to_owned());
            proof {
                assert((self.levels_practiced@[self.levels_practiced@.len() - 1])@ == level@);
            }
        } else {
            proof {
                let k = choose|k: int|
                    0 <= k < n && (#[trigger] self.levels_practiced@[k])@ == level@;
                assert((self.levels_practiced@[k])@ == level@);
            }
        }
    }

    /// Record a question answer by type.
    pub fn record_question(&mut self, question_type: &str, correct: bool)
        ensures
            final (self).date == old(self).date,
            exists|i: int|
                0 <= i < final (self).accuracy_by_type@.len() && (
                #[trigger] final (self).accuracy_by_type@[i]).0@ == question_type@,
    {
        let n = self.accuracy_by_type.len();
        let mut i: usize = 0;
        while i < n
            invariant
                *self == *old(self),
                n == self.accuracy_by_type@.len(),
                i <= n,
                forall|k: int|
                    0 <= k < i ==> (#[trigger] self.accuracy_by_type@[k]).0@ != question_type@,
            decreases n - i,
        {
            if str_eq(self.accuracy_by_type[i].0.as_str(), question_type) {
                let mut entry = self.accuracy_by_type.remove(i);
                entry.1.record(correct);
                self.accuracy_by_type.insert(i, entry);
                proof {
                    assert((self.accuracy_by_type@[i as int]).0@ == question_type@);
                }
                return ;
            }
            i = i + 1;
        }
        let mut fresh = QuestionTypeStats::new();
        fresh.record(correct);
        self.accuracy_by_type.push((question_type.to_owned(), fresh));
        proof {
            let last = self.accuracy_by_type@[self.accuracy_by_type@.len() - 1];
            assert(last.0@ == question_type@);
        }
    }

    /// Record an SRS review.
    pub fn record_srs_review(&mut self, correct: bool)
        ensures
            final (self).srs_reviews == (if old(self).srs_reviews < u32::MAX {
                old(self).srs_reviews + 1
            } else {
                u32::MAX as int
            }),
            final (self).srs_correct == (if correct && old(self).srs_correct < u32::MAX {
                old(self).srs_correct + 1
            } else {
                old(self).srs_correct as int
            }),
            final (self).date == old(self).date,
    {
        self.srs_reviews = sat_add(self.srs_reviews, 1);
        if correct {
            self.srs_correct = sat_add(self.srs_correct, 1);
        }
    }

    /// Record new words learned.
    pub fn record_words_learned(&mut self, count: u32)
        ensures
            final (self).new_words_learned == (if old(self).new_words_learned + count <= u32::MAX {
                old(self).new_words_learned + count
            } else {
                u32::MAX as int
            }),
            final (self).date == old(self).date,
    {
        self.new_words_learned = sat_add(self.new_words_learned, count);
    }
}

/// Lifetime statistics summary.
#[derive(Debug, Clone, PartialEq)]
pub struct LifetimeStats {
    pub total_xp: u32,
    pub total_lessons: u32,
    pub total_time_seconds: u32,
    pub total_questions: u32,
    pub total_correct: u32,
    pub total_srs_reviews: u32,
    pub total_srs_correct: u32,
    pub total_words: u32,
    pub days_active: u32,
    pub longest_streak: u32,
    pub current_streak: u32,
    pub first_activity_date: Option<String>,
    pub last_activity_date: Option<String>,
}

impl LifetimeStats {
    /// A fresh, all-zero summary.
    pub fn new() -> (r: Self)
        ensures
            r.total_xp == 0,
            r.total_lessons == 0,
            r.total_time_seconds == 0,
            r.total_questions == 0,
            r.total_correct == 0,
            r.total_srs_reviews == 0,
            r.total_srs_correct == 0,
            r.total_words == 0,
            r.days_active == 0,
            r.longest_streak == 0,
            r.current_streak == 0,
            r.first_activity_date is None,
            r.last_activity_date is None,
    {
        Self {
            total_xp: 0,
            total_lessons: 0,
            total_time_seconds: 0,
            total_questions: 0,
            total_correct: 0,
            total_srs_reviews: 0,
            total_srs_correct: 0,
            total_words: 0,
            days_active: 0,
            longest_streak: 0,
            current_streak: 0,
            first_activity_date: None,
            last_activity_date: None,
        }
    }

    /// Fold a day's record into the lifetime totals and activity dates.
    pub fn update_from_daily(&mut self, daily: &DailyStats)
        ensures
            final (self).total_xp == (if old(self).total_xp + daily.xp_earned <= u32::MAX {
                old(self).total_xp + daily.xp_earned
            } else {
                u32::MAX as int
            }),
            final (self).total_lessons == (if old(self).total_lessons + daily.lessons_completed
                <= u32::MAX {
                old(self).total_lessons + daily.lessons_completed
            } else {
                u32::MAX as int
            }),
            final (self).total_words == (if old(self).total_words + daily.new_words_learned
                <= u32::MAX {
                old(self).total_words + daily.new_words_learned
            } else {
                u32::MAX as int
            }),
            (match old(self).first_activity_date {
                None => final (self).first_activity_date matches Some(d) && d@ == daily.date@,
                Some(d0) => final (self).first_activity_date == Some(d0),
            }),
            final (self).last_activity_date matches Some(d) && d@ == daily.date@,
    {
        self.total_xp = sat_add(self.total_xp, daily.xp_earned);
        self.total_lessons = sat_add(self.total_lessons, daily.lessons_completed);
        self.total_time_seconds = sat_add(self.total_time_seconds, daily.time_spent_seconds);
        self.total_questions = sat_add(self.total_questions, daily.questions_answered);
        self.total_correct = sat_add(self.total_correct, daily.questions_correct);
        self.total_srs_reviews = sat_add(self.total_srs_reviews, daily.srs_reviews);
        self.total_srs_correct = sat_add(self.total_srs_correct, daily.srs_correct);
        self.total_words = sat_add(self.total_words, daily.new_words_learned);
        if self.first_activity_date.is_none() {
            self.first_activity_date = Some(daily.date.clone());
        }
        self.last_activity_date = Some(daily.date.clone());
    }
}

/// Tracker for all statistics: one record per day, sorted by date, plus
/// the lifetime summary.
#[derive(Debug, Clone)]
pub struct StatisticsTracker {
    /// Daily records, strictly ascending by date.
    daily_stats: Vec<DailyStats>,
    /// Lifetime stats.
    pub lifetime: LifetimeStats,
}

impl StatisticsTracker {
    /// The daily records, for specifications.
    pub closed spec fn spec_days(self) -> Seq<DailyStats> {
        self.daily_stats@
    }

    /// The lifetime summary, for specifications.
    pub closed spec fn spec_lifetime(self) -> LifetimeStats {
        self.lifetime
    }

    /// The records are strictly ascending by date.
    pub open spec fn wf(self) -> bool {
        forall|i: int, j: int|
            0 <= i < j < self.spec_days().len() ==> lex_le(
                (#[trigger] self.spec_days()[i]).date@,
                (#[trigger] self.spec_days()[j]).date@,
            ) && self.spec_days()[i].date@ != self.spec_days()[j].date@
    }

    /// A record for this date exists.
    pub open spec fn spec_has_day(self, date: Seq<char>) -> bool {
        exists|i: int|
            0 <= i < self.spec_days().len() && (#[trigger] self.spec_days()[i]).date@ == date
    }

    /// Create a new statistics tracker.
    pub fn new() -> (r: Self)
        ensures
            r.wf(),
            r.spec_days() =~= Seq::<DailyStats>::empty(),
            r.spec_lifetime() == LifetimeStats::new_spec(),
    {
        Self { daily_stats: Vec::new(), lifetime: LifetimeStats::new() }
    }

    /// The position of the record for `date`, creating it (in date order)
    /// when absent; a new day bumps the active-day counter.
    pub fn get_or_create_daily(&mut self, date: &str) -> (r: usize)
        requires
            old(self).wf(),
        ensures
            final (self).wf(),
            r < final (self).spec_days().len(),
            final (self).spec_days()[r as int].date@ == date@,
            old(self).spec_has_day(date@) ==> *final (self) == *old(self),
            !old(self).spec_has_day(date@) ==> final (self).spec_days().len() == old(
                self,
            ).spec_days().len() + 1,
            final (self).spec_lifetime() == (LifetimeStats {
                days_active: final (self).spec_lifetime().days_active,
                ..old(self).spec_lifetime()
            }),
    {
        let n = self.daily_stats.len();
        let mut i: usize = 0;
        while i < n
            invariant
                *self == *old(self),
                old(self).wf(),
                n == self.daily_stats@.len(),
                i <= n,
                forall|k: int|
                    0 <= k < i ==> lex_le((#[trigger] self.daily_stats@[k]).date@, date@)
                        && self.daily_stats@[k].date@ != date@,
            decreases n - i,
        {
            if str_eq(self.daily_stats[i].date.as_str(), date) {
                proof {
                    assert(self.spec_days()[i as int].date@ == date@);
                }
                return i;
            }
            if !str_le(self.daily_stats[i].date.as_str(), date) {
                // The date is not recorded yet: everything before position
                // i is strictly smaller, everything from i on strictly
                // larger.
                let ghost pre = *self;
                self.daily_stats.insert(i, DailyStats::new(date));
                self.lifetime.days_active = sat_add(self.lifetime.days_active, 1);
                proof {
                    lemma_insert_sorted(pre, *self, i as int, date@);
                    assert(!pre.spec_has_day(date@)) by {
                        if pre.spec_has_day(date@) {
                            let k = choose|k: int|
                                0 <= k < pre.spec_days().len() && (
                                #[trigger] pre.spec_days()[k]).date@ == date@;
                        }
                    }
                }
                return i;
            }
            i = i + 1;
        }
        let ghost pre = *self;
        self.daily_stats.push(DailyStats::new(date));
        self.lifetime.days_active = sat_add(self.lifetime.days_active, 1);
        proof {
            assert(self.spec_days()[n as int].date@ == date@);
            assert forall|a: int, b: int| 0 <= a < b < self.spec_days().len() implies lex_le(
                (#[trigger] self.spec_days()[a]).date@,
                (#[trigger] self.spec_days()[b]).date@,
            ) && self.spec_days()[a].date@ != self.spec_days()[b].date@ by {
                if b < self.spec_days().len() - 1 {
                    assert(self.spec_days()[a] == pre.spec_days()[a]);
                    assert(self.spec_days()[b] == pre.spec_days()[b]);
                } else {
                    assert(self.spec_days()[a] == pre.spec_days()[a]);
                }
            }
            assert(!pre.spec_has_day(date@)) by {
                if pre.spec_has_day(date@) {
                    let k = choose|k: int|
                        0 <= k < pre.spec_days().len() && (#[trigger] pre.spec_days()[k]).date@
                            == date@;
                }
            }
        }
        n
    }

    /// Get daily stats for a date, if recorded.
    pub fn get_daily(&self, date: &str) -> (r: Option<&DailyStats>)
        ensures
            (match r {
                Some(d) => d.date@ == date@ && self.spec_has_day(date@),
                None => !self.spec_has_day(date@),
            }),
    {
        let n = self.daily_stats.len();
        let mut i: usize = 0;
        while i < n
            invariant
                n == self.daily_stats@.len(),
                i <= n,
                forall|k: int| 0 <= k < i ==> (#[trigger] self.daily_stats@[k]).date@ != date@,
            decreases n - i,
        {
            if str_eq(self.daily_stats[i].date.as_str(), date) {
                proof {
                    assert(self.spec_days()[i as int].date@ == date@);
                }
                return Some(&self.daily_stats[i]);
            }
            i = i + 1;
        }
        None
    }

    /// Record a lesson completion on a date, in the day's record and in
    /// the lifetime totals.
    pub fn record_lesson_completion(
        &mut self,
        date: &str,
        xp: u32,
        questions: u32,
        correct: u32,
        time_seconds: u32,
        level: &str,
    )
        requires
            old(self).wf(),
        ensures
            final (self).wf(),
            final (self).spec_has_day(date@),
            final (self).spec_lifetime().total_xp == (if old(self).spec_lifetime().total_xp + xp <= u32::MAX {
                old(self).spec_lifetime().total_xp + xp
            } else {
                u32::MAX as int
            }),
            final (self).spec_lifetime().total_lessons == (if old(self).spec_lifetime().total_lessons + 1
                <= u32::MAX {
                old(self).spec_lifetime().total_lessons + 1
            } else {
                u32::MAX as int
            }),
    {
        let i = self.get_or_create_daily(date);
        let ghost mid = *self;
        let mut day = self.daily_stats.remove(i);
        day.record_lesson_completion(xp, questions, correct, time_seconds, level);
        self.daily_stats.insert(i, day);
        proof {
            assert(forall|k: int|
                0 <= k < mid.spec_days().len() && k != i ==> self.spec_days()[k]
                    == mid.spec_days()[k]);
            assert(self.spec_days()[i as int].date@ == mid.spec_days()[i as int].date@);
            lemma_replace_same_date(mid, *self, i as int);
            assert(mid.spec_has_day(date@));
        }
        self.lifetime.total_xp = sat_add(self.lifetime.total_xp, xp);
        self.lifetime.total_lessons = sat_add(self.lifetime.total_lessons, 1);
        self.lifetime.total_time_seconds = sat_add(self.lifetime.total_time_seconds, time_seconds);
        self.lifetime.total_questions = sat_add(self.lifetime.total_questions, questions);
        self.lifetime.total_correct = sat_add(self.lifetime.total_correct, correct);
        proof {
            assert(self.spec_days()[i as int].date@ == date@);
        }
    }

    /// Record a question answer on a date.
    pub fn record_question(&mut self, date: &str, question_type: &str, correct: bool)
        requires
            old(self).wf(),
        ensures
            final (self).wf(),
            final (self).spec_has_day(date@),
    {
        let i = self.get_or_create_daily(date);
        let ghost mid = *self;
        let mut day = self.daily_stats.remove(i);
        day.record_question(question_type, correct);
        self.daily_stats.insert(i, day);
        proof {
            assert(forall|k: int|
                0 <= k < mid.spec_days().len() && k != i ==> self.spec_days()[k]
                    == mid.spec_days()[k]);
            assert(self.spec_days()[i as int].date@ == mid.spec_days()[i as int].date@);
            lemma_replace_same_date(mid, *self, i as int);
            assert(mid.spec_has_day(date@));
            assert(self.spec_days()[i as int].date@ == date@);
        }
    }

    /// Record an SRS review on a date.
    pub fn record_srs_review(&mut self, date: &str, correct: bool)
        requires
            old(self).wf(),
        ensures
            final (self).wf(),
            final (self).spec_has_day(date@),
            final (self).spec_lifetime().total_srs_reviews == (if old(self).spec_lifetime().total_srs_reviews
                < u32::MAX {
                old(self).spec_lifetime().total_srs_reviews + 1
            } else {
                u32::MAX as int
            }),
    {
        let i = self.get_or_create_daily(date);
        let ghost mid = *self;
        let mut day = self.daily_stats.remove(i);
        day.record_srs_review(correct);
        self.daily_stats.insert(i, day);
        proof {
            assert(forall|k: int|
                0 <= k < mid.spec_days().len() && k != i ==> self.spec_days()[k]
                    == mid.spec_days()[k]);
            assert(self.spec_days()[i as int].date@ == mid.spec_days()[i as int].date@);
            lemma_replace_same_date(mid, *self, i as int);
            assert(mid.spec_has_day(date@));
            assert(self.spec_days()[i as int].date@ == date@);
        }
        self.lifetime.total_srs_reviews = sat_add(self.lifetime.total_srs_reviews, 1);
        if correct {
            self.lifetime.total_srs_correct = sat_add(self.lifetime.total_srs_correct, 1);
        }
        proof {
            assert(self.spec_days()[i as int].date@ == date@);
        }
    }

    /// Record words learned on a date.
    pub fn record_words_learned(&mut self, date: &str, count: u32)
        requires
            old(self).wf(),
        ensures
            final (self).wf(),
            final (self).spec_has_day(date@),
            final (self).spec_lifetime().total_words == (if old(self).spec_lifetime().total_words + count
                <= u32::MAX {
                old(self).spec_lifetime().total_words + count
            } else {
                u32::MAX as int
            }),
    {
        let i = self.get_or_create_daily(date);
        let ghost mid = *self;
        let mut day = self.daily_stats.remove(i);
        day.record_words_learned(count);
        self.daily_stats.insert(i, day);
        proof {
            assert(forall|k: int|
                0 <= k < mid.spec_days().len() && k != i ==> self.spec_days()[k]
                    == mid.spec_days()[k]);
            assert(self.spec_days()[i as int].date@ == mid.spec_days()[i as int].date@);
            lemma_replace_same_date(mid, *self, i as int);
            assert(mid.spec_has_day(date@));
            assert(self.spec_days()[i as int].date@ == date@);
        }
        self.lifetime.total_words = sat_add(self.lifetime.total_words, count);
        proof {
            assert(self.spec_days()[i as int].date@ == date@);
        }
    }

    /// Update streak information: the current streak is replaced, the
    /// longest only ever grows.
    pub fn update_streak(&mut self, current: u32, longest: u32)
        ensures
            final (self).spec_lifetime().current_streak == current,
            final (self).spec_lifetime().longest_streak == (if longest > old(
                self,
            ).spec_lifetime().longest_streak {
                longest as int
            } else {
                old(self).spec_lifetime().longest_streak as int
            }),
            final (self).spec_days() == old(self).spec_days(),
    {
        self.lifetime.current_streak = current;
        if longest > self.lifetime.longest_streak {
            self.lifetime.longest_streak = longest;
        }
    }

    /// Get the records in a date range (inclusive), in date order.
    pub fn get_range(&self, start_date: &str, end_date: &str) -> (r: Vec<&DailyStats>)
        ensures
            forall|j: int|
                0 <= j < r@.len() ==> lex_le(start_date@, (*(#[trigger] r@[j])).date@) && lex_le(
                    (*r@[j]).date@,
                    end_date@,
                ),
    {
        let n = self.daily_stats.len();
        let mut r: Vec<&DailyStats> = Vec::new();
        let mut i: usize = 0;
        while i < n
            invariant
                n == self.daily_stats@.len(),
                i <= n,
                forall|j: int|
                    0 <= j < r@.len() ==> lex_le(start_date@, (*(#[trigger] r@[j])).date@)
                        && lex_le((*r@[j]).date@, end_date@),
            decreases n - i,
        {
            if str_le(start_date, self.daily_stats[i].date.as_str()) && str_le(
                self.daily_stats[i].date.as_str(),
                end_date,
            ) {
                r.push(&self.daily_stats[i]);
            }
            i = i + 1;
        }
        r
    }

    /// Get the most recent records, newest first: the last `days` records
    /// in reverse date order.
    pub fn get_recent(&self, days: usize) -> (r: Vec<&DailyStats>)
        ensures
            r@.len() == (if days < self.spec_days().len() {
                days as int
            } else {
                self.spec_days().len() as int
            }),
            forall|j: int|
                0 <= j < r@.len() ==> *(#[trigger] r@[j]) == self.spec_days()[self.spec_days().len()
                    - 1 - j],
    {
        let n = self.daily_stats.len();
        let count = if days < n {
            days
        } else {
            n
        };
        let mut r: Vec<&DailyStats> = Vec::new();
        let mut j: usize = 0;
        while j < count
            invariant
                n == self.daily_stats@.len(),
                count <= n,
                j <= count,
                r@.len() == j,
                forall|k: int|
                    0 <= k < j ==> *(#[trigger] r@[k]) == self.daily_stats@[n - 1 - k],
            decreases count - j,
        {
            r.push(&self.daily_stats[n - 1 - j]);
            j = j + 1;
        }
        r
    }

    /// Get the XP trend over the last `days` days, oldest of them first.
    pub fn xp_trend(&self, days: usize) -> (r: Vec<(String, u32)>)
        ensures
            r@.len() == (if days < self.spec_days().len() {
                days as int
            } else {
                self.spec_days().len() as int
            }),
            forall|j: int|
                0 <= j < r@.len() ==> ({
                    let day = self.spec_days()[self.spec_days().len() - r@.len() + j];
                    (#[trigger] r@[j]).0@ == day.date@ && r@[j].1 == day.xp_earned
                }),
    {
        let n = self.daily_stats.len();
        let count = if days < n {
            days
        } else {
            n
        };
        let start = n - count;
        let mut r: Vec<(String, u32)> = Vec::new();
        let mut j: usize = 0;
        while j < count
            invariant
                n == self.daily_stats@.len(),
                count <= n,
                start == n - count,
                j <= count,
                r@.len() == j,
                forall|k: int|
                    0 <= k < j ==> ({
                        let day = self.daily_stats@[start + k];
                        (#[trigger] r@[k]).0@ == day.date@ && r@[k].1 == day.xp_earned
                    }),
            decreases count - j,
        {
            let day = &self.daily_stats[start + j];
            r.push((day.date.clone(), day.xp_earned));
            j = j + 1;
        }
        r
    }

    /// Get total daily stats count.
    pub fn days_tracked(&self) -> (r: usize)
        ensures
            r == self.spec_days().len(),
    {
        self.daily_stats.len()
    }
}

impl LifetimeStats {
    /// The all-zero summary value.
    pub open spec fn new_spec() -> LifetimeStats {
        LifetimeStats {
            total_xp: 0,
            total_lessons: 0,
            total_time_seconds: 0,
            total_questions: 0,
            total_correct: 0,
            total_srs_reviews: 0,
            total_srs_correct: 0,
            total_words: 0,
            days_active: 0,
            longest_streak: 0,
            current_streak: 0,
            first_activity_date: None,
            last_activity_date: None,
        }
    }
}

/// Inserting a fresh date at the point where everything before is
/// strictly smaller and everything after strictly larger keeps the
/// records sorted.
proof fn lemma_insert_sorted(pre: StatisticsTracker, post: StatisticsTracker, at: int, date: Seq<
    char,
>)
    requires
        pre.wf(),
        0 <= at <= pre.spec_days().len(),
        post.spec_days() == pre.spec_days().insert(at, post.spec_days()[at]),
        post.spec_days()[at].date@ == date,
        forall|k: int|
            0 <= k < at ==> lex_le((#[trigger] pre.spec_days()[k]).date@, date)
                && pre.spec_days()[k].date@ != date,
        at < pre.spec_days().len() ==> !lex_le(pre.spec_days()[at].date@, date),
    ensures
        post.wf(),
{
    lemma_lex_total_helper();
    assert forall|a: int, b: int| 0 <= a < b < post.spec_days().len() implies lex_le(
        (#[trigger] post.spec_days()[a]).date@,
        (#[trigger] post.spec_days()[b]).date@,
    ) && post.spec_days()[a].date@ != post.spec_days()[b].date@ by {
        let pa = if a < at {
            a
        } else {
            a - 1
        };
        let pb = if b < at {
            b
        } else {
            b - 1
        };
        if a != at && b != at {
            assert(post.spec_days()[a] == pre.spec_days()[pa]);
            assert(post.spec_days()[b] == pre.spec_days()[pb]);
        } else if a == at {
            // b > at: the displaced record at `at` was strictly larger.
            assert(post.spec_days()[b] == pre.spec_days()[pb]);
            assert(pb >= at);
            assert(!lex_le(pre.spec_days()[at].date@, date));
            assert(lex_le(date, pre.spec_days()[at].date@));
            if pb > at {
                assert(lex_le(pre.spec_days()[at].date@, pre.spec_days()[pb].date@));
                lemma_lex_trans(date, pre.spec_days()[at].date@, pre.spec_days()[pb].date@);
            }
            assert(post.spec_days()[a].date@ != post.spec_days()[b].date@) by {
                if pb == at {
                    assert(!lex_le(pre.spec_days()[at].date@, date));
                } else {
                    if date == pre.spec_days()[pb].date@ {
                        assert(lex_le(pre.spec_days()[at].date@, date));
                    }
                }
            }
        } else {
            // b == at, a < at: everything before is strictly smaller.
            assert(post.spec_days()[a] == pre.spec_days()[pa]);
            assert(pa < at);
        }
    }
}

/// The lexicographic order is total and transitive.
proof fn lemma_lex_total_helper()
    ensures
        forall|x: Seq<char>, y: Seq<char>| #[trigger] lex_le(x, y) || #[trigger] lex_le(y, x),
{
    assert forall|x: Seq<char>, y: Seq<char>| #[trigger] lex_le(x, y) || #[trigger] lex_le(
        y,
        x,
    ) by {
        lemma_lex_total(x, y);
    }
}

/// Totality of the lexicographic order.
proof fn lemma_lex_total(x: Seq<char>, y: Seq<char>)
    ensures
        lex_le(x, y) || lex_le(y, x),
    decreases x.len(),
{
    if x.len() > 0 && y.len() > 0 && (x[0] as u32) == (y[0] as u32) {
        lemma_lex_total(x.subrange(1, x.len() as int), y.subrange(1, y.len() as int));
    }
}

/// Transitivity of the lexicographic order.
proof fn lemma_lex_trans(x: Seq<char>, y: Seq<char>, z: Seq<char>)
    requires
        lex_le(x, y),
        lex_le(y, z),
    ensures
        lex_le(x, z),
    decreases x.len(),
{
    if x.len() > 0 && y.len() > 0 && z.len() > 0 && (x[0] as u32) == (y[0] as u32) && (y[0] as u32)
        == (z[0] as u32) {
        lemma_lex_trans(
            x.subrange(1, x.len() as int),
            y.subrange(1, y.len() as int),
            z.subrange(1, z.len() as int),
        );
    }
}

/// Replacing one day's record with another for the same date keeps the
/// records sorted.
proof fn lemma_replace_same_date(pre: StatisticsTracker, post: StatisticsTracker, at: int)
    requires
        pre.wf(),
        0 <= at < pre.spec_days().len(),
        post.spec_days().len() == pre.spec_days().len(),
        post.spec_days()[at].date@ == pre.spec_days()[at].date@,
        forall|k: int|
            0 <= k < pre.spec_days().len() && k != at ==> post.spec_days()[k] == pre.spec_days()[k],
    ensures
        post.wf(),
        forall|d: Seq<char>| post.spec_has_day(d) == pre.spec_has_day(d),
{
    assert forall|a: int, b: int| 0 <= a < b < post.spec_days().len() implies lex_le(
        (#[trigger] post.spec_days()[a]).date@,
        (#[trigger] post.spec_days()[b]).date@,
    ) && post.spec_days()[a].date@ != post.spec_days()[b].date@ by {
        assert(post.spec_days()[a].date@ == pre.spec_days()[a].date@);
        assert(post.spec_days()[b].date@ == pre.spec_days()[b].date@);
    }
    assert forall|d: Seq<char>| post.spec_has_day(d) == pre.spec_has_day(d) by {
        if pre.spec_has_day(d) {
            let k = choose|k: int|
                0 <= k < pre.spec_days().len() && (#[trigger] pre.spec_days()[k]).date@ == d;
            assert(post.spec_days()[k].date@ == d);
        }
        if post.spec_has_day(d) {
            let k = choose|k: int|
                0 <= k < post.spec_days().len() && (#[trigger] post.spec_days()[k]).date@ == d;
            assert(pre.spec_days()[k].date@ == d);
        }
    }
}

} // verus!
