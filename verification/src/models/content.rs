//! Bundles of lessons and the index that summarizes them.

use vstd::prelude::*;

use crate::models::language::LanguagePair;
use crate::models::lesson::{Lesson, LessonMetadata};
use crate::models::level::CEFRLevel;
use crate::util::{lemma_filter_take_step, lemma_filter_take_zero, lemma_take_all, str_eq};

verus! {

/// A bundle of lessons loaded from content files.
#[derive(Debug, Clone)]
pub struct ContentBundle {
    /// All lessons, in the order they were added.
    pub lessons: Vec<Lesson>,
}

/// The sum of the XP rewards of a sequence of lessons.
pub open spec fn sum_xp(s: Seq<Lesson>) -> int
    decreases s.len(),
{
    if s.len() == 0 {
        0
    } else {
        sum_xp(s.drop_last()) + s.last().xp_reward
    }
}

/// The lessons of `s` for the given pair and level.
pub open spec fn group_of(s: Seq<Lesson>, pair: LanguagePair, level: CEFRLevel) -> Seq<Lesson> {
    s.filter(|l: Lesson| l.language_pair == pair && l.level == level)
}

/// The language pair of each lesson, in order.
pub open spec fn pairs_of(lessons: Seq<Lesson>) -> Seq<LanguagePair> {
    lessons.map_values(|l: Lesson| l.language_pair)
}

/// Whether a lesson meets optional pair and level criteria.
pub open spec fn meets_criteria(
    l: Lesson,
    pair: Option<&LanguagePair>,
    level: Option<CEFRLevel>,
) -> bool {
    (match pair {
        Some(p) => l.language_pair == *p,
        None => true,
    }) && (match level {
        Some(lv) => l.level == lv,
        None => true,
    })
}

impl ContentBundle {
    /// Create a new empty content bundle.
    pub fn new() -> (r: Self)
        ensures
            r.lessons@ =~= Seq::<Lesson>::empty(),
    {
        Self { lessons: Vec::new() }
    }

    /// Create a content bundle from a list of lessons.
    pub fn from_lessons(lessons: Vec<Lesson>) -> (r: Self)
        ensures
            r.lessons == lessons,
    {
        Self { lessons }
    }

    /// Add a lesson to the bundle.
    pub fn add_lesson(&mut self, lesson: Lesson)
        ensures
            final (self).lessons@ == old(self).lessons@.push(lesson),
    {
        self.lessons.push(lesson);
    }

    /// Get all lessons.
    pub fn lessons(&self) -> (r: &Vec<Lesson>)
        ensures
            r == &self.lessons,
    {
        &self.lessons
    }

    /// Get a lesson by ID: the first lesson whose id equals `id`.
    pub fn get_lesson(&self, id: &str) -> (r: Option<&Lesson>)
        ensures
            (match r {
                Some(l) => exists|i: int|
                    {
                        &&& 0 <= i < self.lessons@.len()
                        &&& l == &self.lessons@[i]
                        &&& #[trigger] self.lessons@[i].id@ == id@
                        &&& forall|j: int| 0 <= j < i ==> self.lessons@[j].id@ != id@
                    },
                None => forall|i: int|
                    0 <= i < self.lessons@.len() ==> #[trigger] self.lessons@[i].id@ != id@,
            }),
    {
        let n = self.lessons.len();
        let mut i: usize = 0;
        while i < n
            invariant
                n == self.lessons@.len(),
                i <= n,
                forall|j: int| 0 <= j < i ==> #[trigger] self.lessons@[j].id@ != id@,
            decreases n - i,
        {
            if str_eq(self.lessons[i].id.as_str(), id) {
                return Some(&self.lessons[i]);
            }
            i = i + 1;
        }
        None
    }

    /// Get lessons for a specific language pair.
    pub fn lessons_for_pair(&self, pair: &LanguagePair) -> (r: Vec<&Lesson>)
        ensures
            r@.map_values(|l: &Lesson| *l) == self.lessons@.filter(
                |l: Lesson| l.language_pair == *pair,
            ),
    {
        let pred = |l: Lesson| l.language_pair == *pair;
        let n = self.lessons.len();
        let mut r: Vec<&Lesson> = Vec::new();
        let mut i: usize = 0;
        proof {
            lemma_filter_take_zero(self.lessons@, |l: Lesson| l.language_pair == *pair);
        }
        while i < n
            invariant
                n == self.lessons@.len(),
                i <= n,
                r@.map_values(|l: &Lesson| *l) =~= self.lessons@.take(i as int).filter(
                    |l: Lesson| l.language_pair == *pair,
                ),
            decreases n - i,
        {
            proof {
                lemma_filter_take_step(self.lessons@, i as int, |l: Lesson| l.language_pair == *pair);
            }
            if self.lessons[i].language_pair == *pair {
                r.push(&self.lessons[i]);
            }
            i = i + 1;
        }
        proof {
            lemma_take_all(self.lessons@);
        }
        r
    }

    /// Get lessons for a specific level.
    pub fn lessons_for_level(&self, level: CEFRLevel) -> (r: Vec<&Lesson>)
        ensures
            r@.map_values(|l: &Lesson| *l) == self.lessons@.filter(|l: Lesson| l.level == level),
    {
        let n = self.lessons.len();
        let mut r: Vec<&Lesson> = Vec::new();
        let mut i: usize = 0;
        proof {
            lemma_filter_take_zero(self.lessons@, |l: Lesson| l.level == level);
        }
        while i < n
            invariant
                n == self.lessons@.len(),
                i <= n,
                r@.map_values(|l: &Lesson| *l) =~= self.lessons@.take(i as int).filter(
                    |l: Lesson| l.level == level,
                ),
            decreases n - i,
        {
            proof {
                lemma_filter_take_step(self.lessons@, i as int, |l: Lesson| l.level == level);
            }
            if self.lessons[i].level == level {
                r.push(&self.lessons[i]);
            }
            i = i + 1;
        }
        proof {
            lemma_take_all(self.lessons@);
        }
        r
    }

    /// Get lessons for a specific language pair and level.
    pub fn lessons_for_pair_and_level(&self, pair: &LanguagePair, level: CEFRLevel) -> (r: Vec<
        &Lesson,
    >)
        ensures
            r@.map_values(|l: &Lesson| *l) == group_of(self.lessons@, *pair, level),
    {
        let n = self.lessons.len();
        let mut r: Vec<&Lesson> = Vec::new();
        let mut i: usize = 0;
        proof {
            lemma_filter_take_zero(
                self.lessons@,
                |l: Lesson| l.language_pair == *pair && l.level == level,
            );
        }
        while i < n
            invariant
                n == self.lessons@.len(),
                i <= n,
                r@.map_values(|l: &Lesson| *l) =~= self.lessons@.take(i as int).filter(
                    |l: Lesson| l.language_pair == *pair && l.level == level,
                ),
            decreases n - i,
        {
            proof {
                lemma_filter_take_step(
                    self.lessons@,
                    i as int,
                    |l: Lesson| l.language_pair == *pair && l.level == level,
                );
            }
            if self.lessons[i].language_pair == *pair && self.lessons[i].level == level {
                r.push(&self.lessons[i]);
            }
            i = i + 1;
        }
        proof {
            lemma_take_all(self.lessons@);
        }
        r
    }

    /// Get metadata for all lessons matching the optional criteria.
    pub fn get_lesson_metadata(&self, pair: Option<&LanguagePair>, level: Option<CEFRLevel>) -> (r:
        Vec<LessonMetadata>)
        ensures
            r@ == self.lessons@.filter(
                |l: Lesson| meets_criteria(l, pair, level),
            ).map_values(|l: Lesson| LessonMetadata::of_lesson(l)),
    {
        let n = self.lessons.len();
        let mut r: Vec<LessonMetadata> = Vec::new();
        let mut i: usize = 0;
        proof {
            lemma_filter_take_zero(self.lessons@, |l: Lesson| meets_criteria(l, pair, level));
        }
        while i < n
            invariant
                n == self.lessons@.len(),
                i <= n,
                r@ =~= self.lessons@.take(i as int).filter(
                    |l: Lesson| meets_criteria(l, pair, level),
                ).map_values(|l: Lesson| LessonMetadata::of_lesson(l)),
            decreases n - i,
        {
            proof {
                lemma_filter_take_step(
                    self.lessons@,
                    i as int,
                    |l: Lesson| meets_criteria(l, pair, level),
                );
            }
            let l = &self.lessons[i];
            let pair_ok = match pair {
                Some(p) => l.language_pair == *p,
                None => true,
            };
            let level_ok = match level {
                Some(lv) => l.level == lv,
                None => true,
            };
            if pair_ok && level_ok {
                r.push(LessonMetadata::from(l));
            }
            i = i + 1;
        }
        proof {
            lemma_take_all(self.lessons@);
        }
        r
    }

    /// Get the total number of lessons.
    pub fn lesson_count(&self) -> (r: usize)
        ensures
            r == self.lessons@.len(),
    {
        self.lessons.len()
    }
}

/// Index of available content per language pair and level.
#[derive(Debug, Clone)]
pub struct ContentIndex {
    /// Available language pairs with their levels.
    pub pairs: Vec<LanguagePairIndex>,
}

/// Index entry for a language pair.
#[derive(Debug, Clone)]
pub struct LanguagePairIndex {
    pub pair: LanguagePair,
    /// Available levels with lesson counts.
    pub levels: Vec<LevelIndex>,
}

/// Index entry for a level within a language pair.
#[derive(Debug, Clone)]
pub struct LevelIndex {
    pub level: CEFRLevel,
    /// Number of lessons available at this level.
    pub lesson_count: usize,
    /// Total XP available at this level.
    pub total_xp: u32,
}

/// The entry for `pair` correctly summarizes the bundle: one level entry for
/// each level with at least one lesson, in ascending level order.
pub open spec fn pair_entry_ok(lessons: Seq<Lesson>, e: LanguagePairIndex) -> bool {
    &&& forall|j: int|
        0 <= j < e.levels@.len() ==> {
            let lv = (#[trigger] e.levels@[j]).level;
            &&& e.levels@[j].lesson_count == group_of(lessons, e.pair, lv).len()
            &&& e.levels@[j].total_xp == sum_xp(group_of(lessons, e.pair, lv))
            &&& group_of(lessons, e.pair, lv).len() > 0
        }
    &&& forall|j1: int, j2: int|
        0 <= j1 < j2 < e.levels@.len() ==> (#[trigger] e.levels@[j1]).level.ord() < (
        #[trigger] e.levels@[j2]).level.ord()
    &&& forall|lv: CEFRLevel|
        group_of(lessons, e.pair, lv).len() > 0 ==> exists|j: int|
            0 <= j < e.levels@.len() && (#[trigger] e.levels@[j]).level == lv
}

impl ContentIndex {
    /// Build an index from a content bundle.  There is exactly one entry for
    /// each language pair that occurs in the bundle, and each entry lists the
    /// levels that occur for that pair, in ascending order, with their lesson
    /// counts and XP totals.
    pub fn from_bundle(bundle: &ContentBundle) -> (r: Self)
        requires
            forall|p: LanguagePair, lv: CEFRLevel|
                sum_xp(#[trigger] group_of(bundle.lessons@, p, lv)) <= u32::MAX,
        ensures
            forall|i1: int, i2: int|
                0 <= i1 < i2 < r.pairs@.len() ==> (#[trigger] r.pairs@[i1]).pair != (
                #[trigger] r.pairs@[i2]).pair,
            forall|i: int|
                0 <= i < r.pairs@.len() ==> pairs_of(bundle.lessons@).contains(
                    (#[trigger] r.pairs@[i]).pair,
                ),
            forall|k: int|
                0 <= k < bundle.lessons@.len() ==> r.pairs@.map_values(
                    |e: LanguagePairIndex| e.pair,
                ).contains(#[trigger] pairs_of(bundle.lessons@)[k]),
            forall|i: int|
                0 <= i < r.pairs@.len() ==> pair_entry_ok(bundle.lessons@, #[trigger] r.pairs@[i]),
    {
        let pairs_seen = distinct_pairs(&bundle.lessons);
        let mut pairs: Vec<LanguagePairIndex> = Vec::new();
        let mut i: usize = 0;
        while i < pairs_seen.len()
            invariant
                pairs@.len() == i,
                i <= pairs_seen@.len(),
                forall|t: int| 0 <= t < i ==> (#[trigger] pairs@[t]).pair == pairs_seen@[t],
                forall|t: int|
                    0 <= t < i ==> pair_entry_ok(bundle.lessons@, #[trigger] pairs@[t]),
                forall|p: LanguagePair, lv: CEFRLevel|
                    sum_xp(#[trigger] group_of(bundle.lessons@, p, lv)) <= u32::MAX,
            decreases pairs_seen@.len() - i,
        {
            let entry = build_pair_entry(&bundle.lessons, pairs_seen[i]);
            pairs.push(entry);
            i = i + 1;
        }
        let r = Self { pairs };
        proof {
            assert(r.pairs@.map_values(|e: LanguagePairIndex| e.pair) =~= pairs_seen@);
        }
        r
    }

    /// Get the index for a specific language pair: the first entry with it.
    pub fn get_pair_index(&self, pair: &LanguagePair) -> (r: Option<&LanguagePairIndex>)
        ensures
            (match r {
                Some(e) => exists|i: int|
                    {
                        &&& 0 <= i < self.pairs@.len()
                        &&& e == &self.pairs@[i]
                        &&& (#[trigger] self.pairs@[i]).pair == *pair
                    },
                None => forall|i: int|
                    0 <= i < self.pairs@.len() ==> (#[trigger] self.pairs@[i]).pair != *pair,
            }),
    {
        let n = self.pairs.len();
        let mut i: usize = 0;
        while i < n
            invariant
                n == self.pairs@.len(),
                i <= n,
                forall|j: int| 0 <= j < i ==> (#[trigger] self.pairs@[j]).pair != *pair,
            decreases n - i,
        {
            if self.pairs[i].pair == *pair {
                return Some(&self.pairs[i]);
            }
            i = i + 1;
        }
        None
    }
}

/// Levels with equal positions in the ladder are the same level.
proof fn lemma_ord_inj(a: CEFRLevel, b: CEFRLevel)
    ensures
        a.ord() == b.ord() ==> a == b,
        0 <= a.ord() < 6,
{
}

/// The language pairs occurring in `lessons`, in first-seen order, without
/// duplicates.
fn distinct_pairs(lessons: &Vec<Lesson>) -> (r: Vec<LanguagePair>)
    ensures
        forall|i1: int, i2: int| 0 <= i1 < i2 < r@.len() ==> r@[i1] != r@[i2],
        forall|i: int| 0 <= i < r@.len() ==> pairs_of(lessons@).contains(#[trigger] r@[i]),
        forall|m: int|
            0 <= m < lessons@.len() ==> r@.contains(#[trigger] pairs_of(lessons@)[m]),
{
    let n = lessons.len();
    let mut r: Vec<LanguagePair> = Vec::new();
    let mut k: usize = 0;
    while k < n
        invariant
            n == lessons@.len(),
            k <= n,
            forall|i1: int, i2: int| 0 <= i1 < i2 < r@.len() ==> r@[i1] != r@[i2],
            forall|i: int| 0 <= i < r@.len() ==> pairs_of(lessons@).contains(#[trigger] r@[i]),
            forall|m: int| 0 <= m < k ==> r@.contains(#[trigger] pairs_of(lessons@)[m]),
        decreases n - k,
    {
        let ghost old_r = r@;
        let p = lessons[k].language_pair;
        assert(pairs_of(lessons@)[k as int] == p);
        let mut found = false;
        let mut t: usize = 0;
        while t < r.len()
            invariant
                t <= r@.len(),
                found == exists|u: int| 0 <= u < t && r@[u] == p,
            decreases r@.len() - t,
        {
            if r[t] == p {
                found = true;
            }
            t = t + 1;
        }
        if !found {
            r.push(p);
            assert(r@[r@.len() - 1] == p);
            assert(pairs_of(lessons@).contains(p));
            assert forall|x: LanguagePair| old_r.contains(x) implies #[trigger] r@.contains(x) by {
                let u = choose|u: int| 0 <= u < old_r.len() && old_r[u] == x;
                assert(r@[u] == x);
            }
            assert forall|i: int| 0 <= i < r@.len() implies pairs_of(lessons@).contains(
                #[trigger] r@[i],
            ) by {
                if i < old_r.len() {
                    assert(r@[i] == old_r[i]);
                } else {
                    assert(r@[i] == p);
                }
            }
        }
        assert(r@.contains(lessons@[k as int].language_pair)) by {
            if found {
                let u = choose|u: int| 0 <= u < r@.len() && r@[u] == p;
                assert(r@[u] == lessons@[k as int].language_pair);
            } else {
                assert(r@[r@.len() - 1] == lessons@[k as int].language_pair);
            }
        }
        k = k + 1;
    }
    r
}

/// Builds the index entry for one language pair.
fn build_pair_entry(lessons: &Vec<Lesson>, pair: LanguagePair) -> (r: LanguagePairIndex)
    requires
        forall|p: LanguagePair, lv: CEFRLevel|
            sum_xp(#[trigger] group_of(lessons@, p, lv)) <= u32::MAX,
    ensures
        r.pair == pair,
        pair_entry_ok(lessons@, r),
{
    let all_levels = CEFRLevel::all();
    let mut levels: Vec<LevelIndex> = Vec::new();
    let mut j: usize = 0;
    while j < all_levels.len()
        invariant
            j <= all_levels@.len(),
            all_levels@ =~= seq![
                CEFRLevel::A1,
                CEFRLevel::A2,
                CEFRLevel::B1,
                CEFRLevel::B2,
                CEFRLevel::C1,
                CEFRLevel::C2,
            ],
            forall|p: LanguagePair, lv: CEFRLevel|
                sum_xp(#[trigger] group_of(lessons@, p, lv)) <= u32::MAX,
            forall|u: int|
                0 <= u < levels@.len() ==> {
                    let lv = (#[trigger] levels@[u]).level;
                    &&& levels@[u].lesson_count == group_of(lessons@, pair, lv).len()
                    &&& levels@[u].total_xp == sum_xp(group_of(lessons@, pair, lv))
                    &&& group_of(lessons@, pair, lv).len() > 0
                    &&& lv.ord() < j
                },
            forall|u1: int, u2: int|
                0 <= u1 < u2 < levels@.len() ==> (#[trigger] levels@[u1]).level.ord() < (
                #[trigger] levels@[u2]).level.ord(),
            forall|lv: CEFRLevel|
                lv.ord() < j && group_of(lessons@, pair, lv).len() > 0 ==> exists|u: int|
                    0 <= u < levels@.len() && (#[trigger] levels@[u]).level == lv,
        decreases all_levels@.len() - j,
    {
        let lv = all_levels[j];
        assert(lv.ord() == j);
        let (count, xp) = count_group(lessons, &pair, lv);
        let ghost old_levels = levels@;
        if count > 0 {
            levels.push(LevelIndex { level: lv, lesson_count: count, total_xp: xp });
            assert(forall|u: int| 0 <= u < old_levels.len() ==> levels@[u] == old_levels[u]);
            assert(levels@[levels@.len() - 1].level == lv);
        }
        assert forall|lv2: CEFRLevel|
            lv2.ord() < j + 1 && group_of(lessons@, pair, lv2).len() > 0 implies exists|u: int|
            0 <= u < levels@.len() && (#[trigger] levels@[u]).level == lv2 by {
            lemma_ord_inj(lv2, lv);
            if lv2.ord() < j {
                let u = choose|u: int|
                    0 <= u < old_levels.len() && (#[trigger] old_levels[u]).level == lv2;
                assert(levels@[u].level == lv2);
            } else {
                assert(lv2 == lv);
                assert(levels@[levels@.len() - 1].level == lv2);
            }
        }
        j = j + 1;
    }
    let ghost done = levels@;
    let r = LanguagePairIndex { pair, levels };
    assert(r.levels@ == done);
    assert forall|lv: CEFRLevel|
        group_of(lessons@, r.pair, lv).len() > 0 implies exists|u: int|
        0 <= u < r.levels@.len() && (#[trigger] r.levels@[u]).level == lv by {
        lemma_ord_inj(lv, lv);
        let u = choose|u: int| 0 <= u < done.len() && (#[trigger] done[u]).level == lv;
        assert(r.levels@[u].level == lv);
    }
    r
}

/// Counts the lessons of one pair and level and sums their XP rewards.
fn count_group(lessons: &Vec<Lesson>, pair: &LanguagePair, level: CEFRLevel) -> (r: (usize, u32))
    requires
        sum_xp(group_of(lessons@, *pair, level)) <= u32::MAX,
    ensures
        r.0 == group_of(lessons@, *pair, level).len(),
        r.1 == sum_xp(group_of(lessons@, *pair, level)),
{
    let ghost pred = |l: Lesson| l.language_pair == *pair && l.level == level;
    let n = lessons.len();
    let mut count: usize = 0;
    let mut xp: u64 = 0;
    let mut i: usize = 0;
    proof {
        lemma_filter_take_zero(lessons@, pred);
        lemma_sum_xp_bound_all(lessons@, pred);
    }
    while i < n
        invariant
            n == lessons@.len(),
            i <= n,
            count == lessons@.take(i as int).filter(pred).len(),
            xp == sum_xp(lessons@.take(i as int).filter(pred)),
            pred == (|l: Lesson| l.language_pair == *pair && l.level == level),
            sum_xp(lessons@.filter(pred)) <= u32::MAX,
            xp <= sum_xp(lessons@.filter(pred)),
            count <= i,
        decreases n - i,
    {
        proof {
            lemma_filter_take_step(lessons@, i as int, pred);
            lemma_sum_xp_prefix(lessons@, i as int, pred);
        }
        if lessons[i].language_pair == *pair && lessons[i].level == level {
            assert(lessons@.take(i as int + 1).filter(pred) == lessons@.take(i as int).filter(
                pred,
            ).push(lessons@[i as int]));
            assert(sum_xp(lessons@.take(i as int + 1).filter(pred)) == sum_xp(
                lessons@.take(i as int).filter(pred),
            ) + lessons@[i as int].xp_reward) by {
                let s = lessons@.take(i as int).filter(pred).push(lessons@[i as int]);
                assert(s.drop_last() =~= lessons@.take(i as int).filter(pred));
            }
            count = count + 1;
            xp = xp + lessons[i].xp_reward as u64;
        }
        i = i + 1;
    }
    proof {
        lemma_take_all(lessons@);
    }
    (count, xp as u32)
}

/// The XP sum of any filtered prefix is at most the XP sum of the whole
/// filtered sequence.
proof fn lemma_sum_xp_prefix(s: Seq<Lesson>, i: int, pred: spec_fn(Lesson) -> bool)
    requires
        0 <= i < s.len(),
    ensures
        sum_xp(s.take(i + 1).filter(pred)) <= sum_xp(s.filter(pred)),
        sum_xp(s.take(i).filter(pred)) <= sum_xp(s.filter(pred)),
    decreases s.len() - i,
{
    lemma_filter_take_step(s, i, pred);
    if pred(s[i]) {
        let a = s.take(i).filter(pred);
        let b = a.push(s[i]);
        assert(b.drop_last() =~= a);
        assert(sum_xp(b) == sum_xp(a) + s[i].xp_reward);
    }
    if i + 1 < s.len() {
        lemma_sum_xp_prefix(s, i + 1, pred);
    } else {
        lemma_take_all(s);
    }
}

/// Helper: `take(0)` has XP sum zero and every prefix sum is bounded.
proof fn lemma_sum_xp_bound_all(s: Seq<Lesson>, pred: spec_fn(Lesson) -> bool)
    ensures
        sum_xp(s.take(0).filter(pred)) == 0,
        sum_xp(s.take(0).filter(pred)) <= sum_xp(s.filter(pred)),
{
    lemma_filter_take_zero(s, pred);
    if s.len() > 0 {
        lemma_sum_xp_prefix(s, 0, pred);
    } else {
        lemma_take_all(s);
    }
}

} // verus!
