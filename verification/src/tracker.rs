//! Learner progress across lessons and language pairs, held as one row
//! per (language pair, lesson) with completion, attempt, and best-score
//! data.

use vstd::prelude::*;

use crate::models::language::LanguagePair;
use crate::models::level::CEFRLevel;
use crate::util::str_eq;

verus! {

/// One recorded lesson: its pair key (the pair's content directory name),
/// its lesson id, the best score so far (0-100), and the attempt count.
#[derive(Debug, Clone, PartialEq)]
pub struct LessonRow {
    pub pair_key: String,
    pub lesson_id: String,
    pub best_score: u32,
    pub attempts: u32,
}

/// Result of completing a lesson.
#[derive(Debug, Clone, PartialEq)]
pub struct LessonCompletionResult {
    /// Whether this was the first time completing this lesson.
    pub first_completion: bool,
    /// Score achieved (0-100).
    pub score_percent: u32,
    /// Whether it was a perfect score.
    pub is_perfect: bool,
    /// Whether the score improved from previous best.
    pub improved_score: bool,
    /// Which attempt number this was.
    pub attempt_number: u32,
}

/// Progress statistics for a language pair.  The average score is in
/// hundredths of a score point, rounded down.
#[derive(Debug, Clone, PartialEq)]
pub struct ProgressStats {
    /// Number of completed lessons.
    pub completed_lessons: usize,
    /// Total lessons available.
    pub total_lessons: usize,
    /// Completion percentage (0-100), rounded to the nearest point.
    pub completion_percent: u32,
    /// Average best score across attempted lessons, in hundredths.
    pub average_score: u32,
    /// Number of lessons with perfect scores.
    pub perfect_lessons: usize,
}

/// The rows of `rows` recorded under `key`.
pub open spec fn rows_for_pair(rows: Seq<LessonRow>, key: Seq<char>) -> Seq<LessonRow>
    decreases rows.len(),
{
    if rows.len() == 0 {
        Seq::empty()
    } else if rows.last().pair_key@ == key {
        rows_for_pair(rows.drop_last(), key).push(rows.last())
    } else {
        rows_for_pair(rows.drop_last(), key)
    }
}

/// Selecting the rows of one pair, prefix by prefix.
proof fn lemma_rows_for_pair_step(rows: Seq<LessonRow>, key: Seq<char>, i: int)
    requires
        0 <= i < rows.len(),
    ensures
        rows_for_pair(rows.take(i + 1), key) == (if rows[i].pair_key@ == key {
            rows_for_pair(rows.take(i), key).push(rows[i])
        } else {
            rows_for_pair(rows.take(i), key)
        }),
{
    assert(rows.take(i + 1).drop_last() =~= rows.take(i));
    assert(rows.take(i + 1).last() == rows[i]);
}

/// Tracks user progress across lessons and language pairs.
#[derive(Debug, Clone)]
pub struct ProgressTracker {
    /// One row per recorded (pair, lesson), in first-recorded order.
    rows: Vec<LessonRow>,
    /// Active language pair.
    active_language_pair: Option<LanguagePair>,
    /// Preferred CEFR level.
    preferred_level: CEFRLevel,
}

impl ProgressTracker {
    /// The rows, for specifications.
    pub closed spec fn spec_rows(self) -> Seq<LessonRow> {
        self.rows@
    }

    /// The active pair, for specifications.
    pub closed spec fn spec_active_pair(self) -> Option<LanguagePair> {
        self.active_language_pair
    }

    /// The preferred level, for specifications.
    pub closed spec fn spec_preferred_level(self) -> CEFRLevel {
        self.preferred_level
    }

    /// A row for this pair key and lesson exists.
    pub open spec fn spec_has_row(self, key: Seq<char>, lesson: Seq<char>) -> bool {
        exists|i: int|
            0 <= i < self.spec_rows().len() && (#[trigger] self.spec_rows()[i]).pair_key@ == key
                && self.spec_rows()[i].lesson_id@ == lesson
    }

    /// No two rows share a pair key and lesson id.
    pub open spec fn wf(self) -> bool {
        forall|i: int, j: int|
            0 <= i < j < self.spec_rows().len() ==> !((#[trigger] self.spec_rows()[i]).pair_key@
                == (#[trigger] self.spec_rows()[j]).pair_key@ && self.spec_rows()[i].lesson_id@
                == self.spec_rows()[j].lesson_id@)
    }

    /// Create a new progress tracker.
    pub fn new() -> (r: Self)
        ensures
            r.wf(),
            r.spec_rows() =~= Seq::<LessonRow>::empty(),
            r.spec_active_pair() is None,
            r.spec_preferred_level() == CEFRLevel::A1,
    {
        Self { rows: Vec::new(), active_language_pair: None, preferred_level: CEFRLevel::A1 }
    }

    /// Set the active language pair.
    pub fn set_active_language_pair(&mut self, pair: LanguagePair)
        ensures
            final (self).spec_active_pair() == Some(pair),
            final (self).spec_rows() == old(self).spec_rows(),
            final (self).spec_preferred_level() == old(self).spec_preferred_level(),
    {
        self.active_language_pair = Some(pair);
    }

    /// Get the active language pair.
    pub fn active_language_pair(&self) -> (r: Option<&LanguagePair>)
        ensures
            (match r {
                Some(p) => self.spec_active_pair() == Some(*p),
                None => self.spec_active_pair() is None,
            }),
    {
        match &self.active_language_pair {
            Some(p) => Some(p),
            None => None,
        }
    }

    /// Set the preferred level.
    pub fn set_preferred_level(&mut self, level: CEFRLevel)
        ensures
            final (self).spec_preferred_level() == level,
            final (self).spec_rows() == old(self).spec_rows(),
            final (self).spec_active_pair() == old(self).spec_active_pair(),
    {
        self.preferred_level = level;
    }

    /// Get the preferred level.
    pub fn preferred_level(&self) -> (r: CEFRLevel)
        ensures
            r == self.spec_preferred_level(),
    {
        self.preferred_level
    }

    /// The position of the row for this pair key and lesson, if any.
    fn row_position(&self, key: &str, lesson_id: &str) -> (r: Option<usize>)
        ensures
            (match r {
                Some(i) => i < self.spec_rows().len() && self.spec_rows()[i as int].pair_key@
                    == key@ && self.spec_rows()[i as int].lesson_id@ == lesson_id@,
                None => !self.spec_has_row(key@, lesson_id@),
            }),
    {
        let n = self.rows.len();
        let mut i: usize = 0;
        while i < n
            invariant
                n == self.rows@.len(),
                i <= n,
                forall|k: int|
                    0 <= k < i ==> !((#[trigger] self.rows@[k]).pair_key@ == key@
                        && self.rows@[k].lesson_id@ == lesson_id@),
            decreases n - i,
        {
            if str_eq(self.rows[i].pair_key.as_str(), key) && str_eq(
                self.rows[i].lesson_id.as_str(),
                lesson_id,
            ) {
                return Some(i);
            }
            i = i + 1;
        }
        None
    }

    /// Record a lesson completion: the first record for a lesson creates
    /// its row; later ones bump the attempt count and keep the best score.
    pub fn record_lesson_completion(
        &mut self,
        pair: &LanguagePair,
        lesson_id: &str,
        score_percent: u32,
    ) -> (r: LessonCompletionResult)
        requires
            old(self).wf(),
        ensures
            final (self).wf(),
            final (self).spec_has_row(pair.spec_content_dir(), lesson_id@),
            r.score_percent == score_percent,
            r.is_perfect == (score_percent == 100),
            r.first_completion == !old(self).spec_has_row(pair.spec_content_dir(), lesson_id@),
            r.first_completion ==> {
                &&& r.attempt_number == 1
                &&& final (self).spec_rows().len() == old(self).spec_rows().len() + 1
                &&& final (self).spec_rows().last().best_score == score_percent
                &&& final (self).spec_rows().last().attempts == 1
                &&& forall|k: int|
                    0 <= k < old(self).spec_rows().len() ==> final (self).spec_rows()[k] == old(
                        self,
                    ).spec_rows()[k]
            },
            !r.first_completion ==> exists|i: int|
                {
                    &&& 0 <= i < old(self).spec_rows().len()
                    &&& (#[trigger] old(self).spec_rows()[i]).pair_key@ == pair.spec_content_dir()
                    &&& old(self).spec_rows()[i].lesson_id@ == lesson_id@
                    &&& (old(self).spec_rows()[i].attempts < u32::MAX ==> r.attempt_number == old(
                        self,
                    ).spec_rows()[i].attempts + 1)
                    &&& r.improved_score == (score_percent > old(self).spec_rows()[i].best_score)
                    &&& final (self).spec_rows().len() == old(self).spec_rows().len()
                },
    {
        let key = pair.content_dir();
        let pos = self.row_position(key.as_str(), lesson_id);
        match pos {
            None => {
                let ghost pre = *self;
                self.rows.push(
                    LessonRow {
                        pair_key: key,
                        lesson_id: lesson_id.to_owned(),
                        best_score: score_percent,
                        attempts: 1,
                    },
                );
                proof {
                    assert(self.spec_rows().last().pair_key@ == pair.spec_content_dir());
                    assert(self.spec_rows().last().lesson_id@ == lesson_id@);
                    assert forall|i: int, j: int|
                        0 <= i < j < self.spec_rows().len() implies !((
                    #[trigger] self.spec_rows()[i]).pair_key@ == (
                    #[trigger] self.spec_rows()[j]).pair_key@ && self.spec_rows()[i].lesson_id@
                        == self.spec_rows()[j].lesson_id@) by {
                        if j < self.spec_rows().len() - 1 {
                            assert(self.spec_rows()[i] == pre.spec_rows()[i]);
                            assert(self.spec_rows()[j] == pre.spec_rows()[j]);
                        } else {
                            assert(self.spec_rows()[i] == pre.spec_rows()[i]);
                            assert(!pre.spec_has_row(pair.spec_content_dir(), lesson_id@));
                        }
                    }
                }
                LessonCompletionResult {
                    first_completion: true,
                    score_percent,
                    is_perfect: score_percent == 100,
                    improved_score: score_percent > 0,
                    attempt_number: 1,
                }
            },
            Some(i) => {
                let ghost pre = *self;
                let mut row = self.rows.remove(i);
                let improved = score_percent > row.best_score;
                if improved {
                    row.best_score = score_percent;
                }
                if row.attempts < u32::MAX {
                    row.attempts = row.attempts + 1;
                }
                let attempt_number = row.attempts;
                self.rows.insert(i, row);
                proof {
                    assert(self.rows@ =~= pre.spec_rows().update(
                        i as int,
                        self.spec_rows()[i as int],
                    ));
                    assert(self.spec_rows()[i as int].pair_key@ == pair.spec_content_dir());
                    assert(self.spec_rows()[i as int].lesson_id@ == lesson_id@);
                    assert forall|a: int, b: int|
                        0 <= a < b < self.spec_rows().len() implies !((
                    #[trigger] self.spec_rows()[a]).pair_key@ == (
                    #[trigger] self.spec_rows()[b]).pair_key@ && self.spec_rows()[a].lesson_id@
                        == self.spec_rows()[b].lesson_id@) by {
                        assert(self.spec_rows()[a].pair_key@ == pre.spec_rows()[a].pair_key@
                            && self.spec_rows()[a].lesson_id@ == pre.spec_rows()[a].lesson_id@);
                        assert(self.spec_rows()[b].pair_key@ == pre.spec_rows()[b].pair_key@
                            && self.spec_rows()[b].lesson_id@ == pre.spec_rows()[b].lesson_id@);
                    }
                }
                LessonCompletionResult {
                    first_completion: false,
                    score_percent,
                    is_perfect: score_percent == 100,
                    improved_score: improved,
                    attempt_number,
                }
            },
        }
    }

    /// Check if a lesson is completed.
    pub fn is_lesson_completed(&self, pair: &LanguagePair, lesson_id: &str) -> (r: bool)
        ensures
            r == self.spec_has_row(pair.spec_content_dir(), lesson_id@),
    {
        let key = pair.content_dir();
        let pos = self.row_position(key.as_str(), lesson_id);
        match pos {
            Some(i) => {
                proof {
                    assert(self.spec_rows()[i as int].pair_key@ == pair.spec_content_dir());
                }
                true
            },
            None => false,
        }
    }

    /// Get the best score for a lesson (0-100, or None if never attempted).
    pub fn lesson_score(&self, pair: &LanguagePair, lesson_id: &str) -> (r: Option<u32>)
        ensures
            (match r {
                Some(s) => exists|i: int|
                    {
                        &&& 0 <= i < self.spec_rows().len()
                        &&& (#[trigger] self.spec_rows()[i]).pair_key@ == pair.spec_content_dir()
                        &&& self.spec_rows()[i].lesson_id@ == lesson_id@
                        &&& self.spec_rows()[i].best_score == s
                    },
                None => !self.spec_has_row(pair.spec_content_dir(), lesson_id@),
            }),
    {
        let key = pair.content_dir();
        let pos = self.row_position(key.as_str(), lesson_id);
        match pos {
            Some(i) => {
                proof {
                    assert((#[trigger] self.spec_rows()[i as int]).pair_key@
                        == pair.spec_content_dir());
                }
                Some(self.rows[i].best_score)
            },
            None => None,
        }
    }

    /// Get the number of attempts for a lesson; zero when never attempted.
    pub fn lesson_attempts(&self, pair: &LanguagePair, lesson_id: &str) -> (r: u32)
        ensures
            !self.spec_has_row(pair.spec_content_dir(), lesson_id@) ==> r == 0,
    {
        let key = pair.content_dir();
        let pos = self.row_position(key.as_str(), lesson_id);
        match pos {
            Some(i) => self.rows[i].attempts,
            None => 0,
        }
    }

    /// Get count of completed lessons for a language pair.
    pub fn completed_count(&self, pair: &LanguagePair) -> (r: usize)
        ensures
            r == rows_for_pair(self.spec_rows(), pair.spec_content_dir()).len(),
    {
        let key = pair.content_dir();
        let n = self.rows.len();
        let mut count: usize = 0;
        let mut i: usize = 0;
        proof {
            assert(self.rows@.take(0) =~= Seq::<LessonRow>::empty());
        }
        while i < n
            invariant
                n == self.rows@.len(),
                i <= n,
                key@ == pair.spec_content_dir(),
                count == rows_for_pair(self.rows@.take(i as int), key@).len(),
                count <= i,
            decreases n - i,
        {
            proof {
                lemma_rows_for_pair_step(self.rows@, key@, i as int);
            }
            if str_eq(self.rows[i].pair_key.as_str(), key.as_str()) {
                count = count + 1;
            }
            i = i + 1;
        }
        proof {
            assert(self.rows@.take(n as int) =~= self.rows@);
        }
        count
    }

    /// Get all completed lesson IDs for a language pair, in record order.
    pub fn completed_lessons(&self, pair: &LanguagePair) -> (r: Vec<String>)
        ensures
            r@.len() == rows_for_pair(self.spec_rows(), pair.spec_content_dir()).len(),
            forall|j: int|
                0 <= j < r@.len() ==> (#[trigger] r@[j])@ == rows_for_pair(
                    self.spec_rows(),
                    pair.spec_content_dir(),
                )[j].lesson_id@,
    {
        let key = pair.content_dir();
        let n = self.rows.len();
        let mut r: Vec<String> = Vec::new();
        let mut i: usize = 0;
        proof {
            assert(self.rows@.take(0) =~= Seq::<LessonRow>::empty());
        }
        while i < n
            invariant
                n == self.rows@.len(),
                i <= n,
                key@ == pair.spec_content_dir(),
                r@.len() == rows_for_pair(self.rows@.take(i as int), key@).len(),
                forall|j: int|
                    0 <= j < r@.len() ==> (#[trigger] r@[j])@ == rows_for_pair(
                        self.rows@.take(i as int),
                        key@,
                    )[j].lesson_id@,
            decreases n - i,
        {
            proof {
                lemma_rows_for_pair_step(self.rows@, key@, i as int);
            }
            if str_eq(self.rows[i].pair_key.as_str(), key.as_str()) {
                r.push(self.rows[i].lesson_id.clone());
            }
            i = i + 1;
        }
        proof {
            assert(self.rows@.take(n as int) =~= self.rows@);
        }
        r
    }

    /// Get all pair keys that have been started, without duplicates.
    pub fn started_language_pairs(&self) -> (r: Vec<String>)
        ensures
            forall|j1: int, j2: int| 0 <= j1 < j2 < r@.len() ==> (#[trigger] r@[j1])@ != (
            #[trigger] r@[j2])@,
    {
        let n = self.rows.len();
        let mut r: Vec<String> = Vec::new();
        let mut i: usize = 0;
        while i < n
            invariant
                n == self.rows@.len(),
                i <= n,
                forall|j1: int, j2: int| 0 <= j1 < j2 < r@.len() ==> (#[trigger] r@[j1])@ != (
                #[trigger] r@[j2])@,
            decreases n - i,
        {
            let key = &self.rows[i].pair_key;
            let mut seen = false;
            let mut t: usize = 0;
            while t < r.len()
                invariant
                    t <= r@.len(),
                    seen == exists|u: int| 0 <= u < t && (#[trigger] r@[u])@ == key@,
                decreases r@.len() - t,
            {
                if str_eq(r[t].as_str(), key.as_str()) {
                    seen = true;
                }
                t = t + 1;
            }
            if !seen {
                r.push(key.clone());
            }
            i = i + 1;
        }
        r
    }

    /// Reset progress for a specific language pair: its rows disappear,
    /// the others stay.
    pub fn reset_pair_progress(&mut self, pair: &LanguagePair)
        requires
            old(self).wf(),
        ensures
            final (self).wf(),
            rows_for_pair(final (self).spec_rows(), pair.spec_content_dir()).len() == 0,
            forall|i: int|
                0 <= i < final (self).spec_rows().len() ==> (
                #[trigger] final (self).spec_rows()[i]).pair_key@ != pair.spec_content_dir(),
            final (self).spec_active_pair() == old(self).spec_active_pair(),
            final (self).spec_preferred_level() == old(self).spec_preferred_level(),
    {
        let key = pair.content_dir();
        let n = self.rows.len();
        let mut out: Vec<LessonRow> = Vec::new();
        let mut i: usize = 0;
        let ghost pre = self.rows@;
        while i < n
            invariant
                old(self).wf(),
                n == pre.len(),
                pre == self.rows@,
                pre == old(self).spec_rows(),
                i <= n,
                key@ == pair.spec_content_dir(),
                forall|j: int| 0 <= j < out@.len() ==> (#[trigger] out@[j]).pair_key@ != key@,
                forall|j: int|
                    0 <= j < out@.len() ==> exists|m: int|
                        0 <= m < i && #[trigger] out@[j] == #[trigger] pre[m],
                forall|j1: int, j2: int|
                    0 <= j1 < j2 < out@.len() ==> !((#[trigger] out@[j1]).pair_key@ == (
                    #[trigger] out@[j2]).pair_key@ && out@[j1].lesson_id@ == out@[j2].lesson_id@),
            decreases n - i,
        {
            let ghost old_out = out@;
            if !str_eq(self.rows[i].pair_key.as_str(), key.as_str()) {
                let row = LessonRow {
                    pair_key: self.rows[i].pair_key.clone(),
                    lesson_id: self.rows[i].lesson_id.clone(),
                    best_score: self.rows[i].best_score,
                    attempts: self.rows[i].attempts,
                };
                proof {
                    assert(row == pre[i as int]);
                }
                out.push(row);
                proof {
                    assert(out@[out@.len() - 1] == pre[i as int]);
                    assert forall|j1: int, j2: int|
                        0 <= j1 < j2 < out@.len() implies !((#[trigger] out@[j1]).pair_key@ == (
                    #[trigger] out@[j2]).pair_key@ && out@[j1].lesson_id@
                        == out@[j2].lesson_id@) by {
                        if j2 == out@.len() - 1 {
                            let m = choose|m: int|
                                0 <= m < i && #[trigger] old_out[j1] == #[trigger] pre[m];
                            assert(out@[j1] == pre[m]);
                            assert(!(pre[m].pair_key@ == pre[i as int].pair_key@
                                && pre[m].lesson_id@ == pre[i as int].lesson_id@));
                        } else {
                            assert(out@[j1] == old_out[j1] && out@[j2] == old_out[j2]);
                        }
                    }
                }
            }
            i = i + 1;
        }
        self.rows = out;
        proof {
            lemma_rows_none(self.spec_rows(), pair.spec_content_dir());
        }
    }

    /// Reset all progress.
    pub fn reset_all(&mut self)
        ensures
            final (self).wf(),
            final (self).spec_rows() =~= Seq::<LessonRow>::empty(),
            final (self).spec_active_pair() == old(self).spec_active_pair(),
            final (self).spec_preferred_level() == old(self).spec_preferred_level(),
    {
        self.rows = Vec::new();
    }

    /// Get progress statistics for a language pair.  The completion
    /// percentage is rounded to the nearest point; the average best score
    /// (over attempted lessons only) is in hundredths, rounded down.
    pub fn get_progress_stats(&self, pair: &LanguagePair, total_lessons: usize) -> (r:
        ProgressStats)
        ensures
            r.completed_lessons == rows_for_pair(self.spec_rows(), pair.spec_content_dir()).len(),
            r.total_lessons == total_lessons,
            total_lessons == 0 ==> r.completion_percent == 0,
    {
        let key = pair.content_dir();
        let completed = self.completed_count(pair);
        let n = self.rows.len();
        let mut score_sum: u64 = 0;
        let mut perfect: usize = 0;
        let mut i: usize = 0;
        while i < n
            invariant
                n == self.rows@.len(),
                i <= n,
                perfect <= i,
            decreases n - i,
        {
            if str_eq(self.rows[i].pair_key.as_str(), key.as_str()) {
                let b = self.rows[i].best_score as u64;
                if score_sum <= u64::MAX - b {
                    score_sum = score_sum + b;
                }
                if self.rows[i].best_score == 100 {
                    perfect = perfect + 1;
                }
            }
            i = i + 1;
        }
        let completion_percent: u32 = if total_lessons == 0 {
            0
        } else {
            let c = completed as u128;
            let t = total_lessons as u128;
            let rounded = (c * 200 + t) / (2 * t);
            if rounded > 100 {
                100
            } else {
                rounded as u32
            }
        };
        let average_score: u32 = if completed == 0 {
            0
        } else {
            let avg = (score_sum as u128) * 100 / (completed as u128);
            if avg > u32::MAX as u128 {
                u32::MAX
            } else {
                avg as u32
            }
        };
        ProgressStats {
            completed_lessons: completed,
            total_lessons,
            completion_percent,
            average_score,
            perfect_lessons: perfect,
        }
    }
}

/// A sequence with no row for a key selects nothing for it.
proof fn lemma_rows_none(rows: Seq<LessonRow>, key: Seq<char>)
    requires
        forall|i: int| 0 <= i < rows.len() ==> (#[trigger] rows[i]).pair_key@ != key,
    ensures
        rows_for_pair(rows, key).len() == 0,
    decreases rows.len(),
{
    if rows.len() > 0 {
        assert(rows[rows.len() - 1].pair_key@ != key);
        lemma_rows_none(rows.drop_last(), key);
    }
}

} // verus!
