//! The adaptive-interval review scheduler.
//!
//! `calculate_next_review` is a pure function from a card and a review
//! outcome to an update record; `apply_update` is the one mutator that
//! copies such a record into a card.  Ease factors are in hundredths
//! (130..=250), so the quadratic quality penalty is exact integer
//! arithmetic: in hundredths the adjustment for quality `q` is
//! `10 - (5-q)*(8 + 2*(5-q))`.

use vstd::prelude::*;

use crate::srs::card::{SRSCard, EASE_MAX, EASE_MIN};
use crate::util::{
    all_digits, dec_val, digit_char, lemma_filter_take_step, lemma_filter_take_zero, lemma_take_all,
    padded_dec, parse_digits, push_padded2, push_padded4,
};

verus! {

broadcast use vstd::seq_lib::to_multiset_remove, vstd::seq_lib::to_multiset_insert, vstd::seq_lib::to_multiset_contains, vstd::multiset::group_multiset_axioms;

// ---------------------------------------------------------------------------
// Review quality
// ---------------------------------------------------------------------------

/// Quality ratings for reviews (0-5 scale).
#[derive(Debug, Clone, Copy, PartialEq, Eq, Structural)]
pub enum ReviewQuality {
    /// Complete blackout - no recall at all.
    Blackout,
    /// Incorrect response but recognized correct answer.
    Incorrect,
    /// Incorrect response but correct answer seemed easy to recall.
    IncorrectEasy,
    /// Correct response with serious difficulty.
    CorrectDifficult,
    /// Correct response after hesitation.
    CorrectHesitation,
    /// Perfect response with no hesitation.
    Perfect,
}

impl ReviewQuality {
    /// The numeric rating of this quality.
    pub open spec fn rating(self) -> int {
        match self {
            ReviewQuality::Blackout => 0,
            ReviewQuality::Incorrect => 1,
            ReviewQuality::IncorrectEasy => 2,
            ReviewQuality::CorrectDifficult => 3,
            ReviewQuality::CorrectHesitation => 4,
            ReviewQuality::Perfect => 5,
        }
    }

    /// Convert from u8 value.
    pub fn from_u8(value: u8) -> (r: Option<Self>)
        ensures
            (match r {
                Some(q) => q.rating() == value,
                None => value > 5,
            }),
    {
        match value {
            0 => Some(ReviewQuality::Blackout),
            1 => Some(ReviewQuality::Incorrect),
            2 => Some(ReviewQuality::IncorrectEasy),
            3 => Some(ReviewQuality::CorrectDifficult),
            4 => Some(ReviewQuality::CorrectHesitation),
            5 => Some(ReviewQuality::Perfect),
            _ => None,
        }
    }

    /// Check if this quality indicates a successful recall.
    pub fn is_successful(&self) -> (r: bool)
        ensures
            r == (self.rating() >= 3),
    {
        match self {
            ReviewQuality::CorrectDifficult | ReviewQuality::CorrectHesitation
            | ReviewQuality::Perfect => true,
            _ => false,
        }
    }

    /// Get display name for this quality.
    pub fn display_name(&self) -> (r: &'static str)
        ensures
            (match self {
                ReviewQuality::Blackout => r@ == "Forgot"@,
                ReviewQuality::Incorrect => r@ == "Wrong"@,
                ReviewQuality::IncorrectEasy => r@ == "Almost"@,
                ReviewQuality::CorrectDifficult => r@ == "Hard"@,
                ReviewQuality::CorrectHesitation => r@ == "Good"@,
                ReviewQuality::Perfect => r@ == "Easy"@,
            }),
    {
        match self {
            ReviewQuality::Blackout => "Forgot",
            ReviewQuality::Incorrect => "Wrong",
            ReviewQuality::IncorrectEasy => "Almost",
            ReviewQuality::CorrectDifficult => "Hard",
            ReviewQuality::CorrectHesitation => "Good",
            ReviewQuality::Perfect => "Easy",
        }
    }
}

// ---------------------------------------------------------------------------
// The scheduling rule
// ---------------------------------------------------------------------------

/// `x` clamped into `[lo, hi]`.
pub open spec fn clamp_spec(x: int, lo: int, hi: int) -> int {
    if x < lo {
        lo
    } else if x > hi {
        hi
    } else {
        x
    }
}

/// The quality rating actually used: ratings above 5 are clamped to 5.
pub open spec fn sched_quality(q: u8) -> int {
    if q > 5 {
        5
    } else {
        q as int
    }
}

/// A review counts as successful from quality 3 upward.
pub open spec fn sched_success(q: u8) -> bool {
    sched_quality(q) >= 3
}

/// The new ease factor, in hundredths.  On success the quadratic penalty
/// term is applied and the result clamped into the band; on failure the
/// ease factor drops by 0.20, but not below the floor.
pub open spec fn sched_ease(ef: u32, q: u8) -> int {
    if sched_success(q) {
        let fq = 5 - sched_quality(q);
        clamp_spec(ef + 10 - fq * (8 + 2 * fq), EASE_MIN as int, EASE_MAX as int)
    } else {
        if ef >= EASE_MIN + 20 {
            ef - 20
        } else {
            EASE_MIN as int
        }
    }
}

/// The new repetition streak: one longer on success, reset on failure.
pub open spec fn sched_reps(reps: u32, q: u8) -> int {
    if sched_success(q) {
        reps + 1
    } else {
        0
    }
}

/// The new interval in days: 1 for the first success, 6 for the second,
/// then the previous interval times the previous ease factor, rounded to
/// the nearest day (half up) and saturated at `u32::MAX`; 1 on failure.
pub open spec fn sched_interval(interval: u32, ef: u32, reps: u32, q: u8) -> int {
    if sched_success(q) {
        if reps == 0 {
            1
        } else if reps == 1 {
            6
        } else {
            let p = (interval * ef + 50) / 100;
            if p > u32::MAX {
                u32::MAX as int
            } else {
                p
            }
        }
    } else {
        1
    }
}

// ---------------------------------------------------------------------------
// Calendar arithmetic
// ---------------------------------------------------------------------------

/// The Gregorian leap-year rule.
pub open spec fn is_leap_year(y: int) -> bool {
    (y % 4 == 0 && y % 100 != 0) || y % 400 == 0
}

/// Days in a month; unknown month numbers count 30 days, as a benign
/// default for malformed input.
pub open spec fn days_in_month_spec(y: int, m: int) -> int {
    if m == 1 || m == 3 || m == 5 || m == 7 || m == 8 || m == 10 || m == 12 {
        31
    } else if m == 4 || m == 6 || m == 9 || m == 11 {
        30
    } else if m == 2 {
        if is_leap_year(y) {
            29
        } else {
            28
        }
    } else {
        30
    }
}

/// Rolls a day count forward over month and year boundaries until the day
/// fits in its month.
pub open spec fn roll_date(y: int, m: int, d: int) -> (int, int, int)
    decreases d,
{
    if d > days_in_month_spec(y, m) {
        if m + 1 > 12 {
            roll_date(y + 1, 1, d - days_in_month_spec(y, m))
        } else {
            roll_date(y, m + 1, d - days_in_month_spec(y, m))
        }
    } else {
        (y, m, d)
    }
}

/// The canonical `YYYY-MM-DD` rendering of a date triple.
pub open spec fn date_str(y: int, m: int, d: int) -> Seq<char> {
    padded_dec(y as nat, 4) + seq![digit_char(0)].update(0, '-') + padded_dec(m as nat, 2) + seq![
        digit_char(0),
    ].update(0, '-') + padded_dec(d as nat, 2)
}

/// The positions of the dashes in `s`, at or after position `i`.
pub open spec fn dashes_from(s: Seq<char>, i: int) -> Seq<int>
    decreases s.len() - i,
{
    if i < 0 || i >= s.len() {
        Seq::empty()
    } else if s[i] == '-' {
        seq![i] + dashes_from(s, i + 1)
    } else {
        dashes_from(s, i + 1)
    }
}

/// The value of a date-string part: its decimal value when it is all
/// digits and within `max`, the fallback `default` otherwise.
pub open spec fn num_or(part: Seq<char>, default: int, max: int) -> int {
    if part.len() > 0 && all_digits(part) && dec_val(part) <= max {
        dec_val(part) as int
    } else {
        default
    }
}

/// What adding `days` days to the string `s` yields: for a three-part
/// date string, each part is parsed (with fallbacks 2024, 1, 1), the days
/// are added, the date is rolled forward calendar-correctly, and the
/// result is rendered zero-padded; any other string is returned unchanged.
pub open spec fn add_days_spec(s: Seq<char>, days: int) -> Seq<char> {
    let ds = dashes_from(s, 0);
    if ds.len() != 2 {
        s
    } else {
        let y = num_or(s.subrange(0, ds[0]), 2024, i32::MAX as int);
        let m = num_or(s.subrange(ds[0] + 1, ds[1]), 1, u32::MAX as int);
        let d = num_or(s.subrange(ds[1] + 1, s.len() as int), 1, u32::MAX as int);
        let rolled = roll_date(y, m, d + days);
        date_str(rolled.0, rolled.1, rolled.2)
    }
}

/// Days in a month, executable.
fn days_in_month(y: u64, m: u64) -> (r: u64)
    ensures
        r == days_in_month_spec(y as int, m as int),
        28 <= r <= 31,
{
    if m == 1 || m == 3 || m == 5 || m == 7 || m == 8 || m == 10 || m == 12 {
        31
    } else if m == 4 || m == 6 || m == 9 || m == 11 {
        30
    } else if m == 2 {
        if (y % 4 == 0 && y % 100 != 0) || y % 400 == 0 {
            29
        } else {
            28
        }
    } else {
        30
    }
}

// ---------------------------------------------------------------------------
// The scheduler
// ---------------------------------------------------------------------------

/// Result of calculating next review schedule.
#[derive(Debug, Clone, PartialEq)]
pub struct SRSUpdate {
    /// New ease factor in hundredths (130-250).
    pub new_ease_factor: u32,
    /// New interval in days.
    pub new_interval: u32,
    /// Updated repetition count.
    pub new_repetitions: u32,
    /// Next review date (ISO format).
    pub next_review_date: String,
    /// Quality rating used for this update.
    pub quality: u8,
    /// Whether this was a successful review.
    pub was_successful: bool,
}

/// The spaced-repetition scheduler.
pub struct SRSScheduler;

impl SRSScheduler {
    /// Calculate the next review schedule for a card, a quality rating
    /// (clamped to 0-5), and the current date in `YYYY-MM-DD` form.
    /// Pure: the card is not changed.
    pub fn calculate_next_review(card: &SRSCard, quality: u8, current_date: &str) -> (r: SRSUpdate)
        requires
            card.repetitions < u32::MAX,
        ensures
            r.quality == sched_quality(quality),
            r.was_successful == sched_success(quality),
            r.new_ease_factor == sched_ease(card.ease_factor, quality),
            r.new_repetitions == sched_reps(card.repetitions, quality),
            r.new_interval == sched_interval(
                card.interval,
                card.ease_factor,
                card.repetitions,
                quality,
            ),
            r.next_review_date@ == add_days_spec(
                current_date@,
                sched_interval(card.interval, card.ease_factor, card.repetitions, quality),
            ),
    {
        let q: u8 = if quality > 5 {
            5
        } else {
            quality
        };
        let was_successful = q >= 3;

        let (new_ease_factor, new_interval, new_repetitions): (u32, u32, u32) = if was_successful {
            let new_reps = card.repetitions + 1;
            let new_interval: u32 = if new_reps == 1 {
                1
            } else if new_reps == 2 {
                6
            } else {
                proof {
                    assert((card.interval as u64) * (card.ease_factor as u64) <= 0xFFFFFFFE00000001)
                        by (nonlinear_arith)
                        requires
                            card.interval as u64 <= 0xFFFFFFFFu64,
                            card.ease_factor as u64 <= 0xFFFFFFFFu64,
                    ;
                }
                let p = ((card.interval as u64) * (card.ease_factor as u64) + 50) / 100;
                if p > u32::MAX as u64 {
                    u32::MAX
                } else {
                    p as u32
                }
            };
            let fq = (5 - q) as i64;
            proof {
                assert(0 <= fq <= 2);
                assert(0 <= fq * (8 + 2 * fq) <= 24) by (nonlinear_arith)
                    requires
                        0 <= fq <= 2,
                ;
            }
            let e = card.ease_factor as i64 + 10 - fq * (8 + 2 * fq);
            let new_ease: u32 = if e < EASE_MIN as i64 {
                EASE_MIN
            } else if e > EASE_MAX as i64 {
                EASE_MAX
            } else {
                e as u32
            };
            (new_ease, new_interval, new_reps)
        } else {
            let new_ease: u32 = if card.ease_factor >= EASE_MIN + 20 {
                card.ease_factor - 20
            } else {
                EASE_MIN
            };
            (new_ease, 1, 0)
        };

        let next_review_date = Self::add_days_to_date(current_date, new_interval);

        SRSUpdate {
            new_ease_factor,
            new_interval,
            new_repetitions,
            next_review_date,
            quality: q,
            was_successful,
        }
    }

    /// Apply a computed update to a card: the one mutator.  It copies the
    /// four scheduling fields, records the review date and quality, and
    /// bumps the review counters.
    pub fn apply_update(card: &mut SRSCard, update: &SRSUpdate, current_date: &str)
        requires
            old(card).total_reviews < u32::MAX,
            old(card).correct_reviews < u32::MAX,
        ensures
            final (card).ease_factor == update.new_ease_factor,
            final (card).interval == update.new_interval,
            final (card).repetitions == update.new_repetitions,
            final (card).next_review_date@ == update.next_review_date@,
            final (card).last_reviewed matches Some(d) && d@ == current_date@,
            final (card).last_quality == Some(update.quality),
            final (card).total_reviews == old(card).total_reviews + 1,
            final (card).correct_reviews == old(card).correct_reviews + (
            if update.was_successful {
                1int
            } else {
                0int
            }),
            final (card).word_id == old(card).word_id,
            final (card).source_word == old(card).source_word,
            final (card).target_word == old(card).target_word,
            final (card).language_pair == old(card).language_pair,
            final (card).level == old(card).level,
            final (card).lesson_id == old(card).lesson_id,
            final (card).pronunciation == old(card).pronunciation,
            final (card).example_sentence == old(card).example_sentence,
            final (card).created_at == old(card).created_at,
    {
        card.ease_factor = update.new_ease_factor;
        card.interval = update.new_interval;
        card.repetitions = update.new_repetitions;
        card.next_review_date = update.next_review_date.clone();
        card.last_reviewed = Some(current_date.to_owned());
        card.last_quality = Some(update.quality);
        card.total_reviews = card.total_reviews + 1;
        if update.was_successful {
            card.correct_reviews = card.correct_reviews + 1;
        }
    }

    /// Get all cards that are due for review.
    pub fn get_due_cards<'a>(cards: &'a Vec<SRSCard>, current_date: &str) -> (r: Vec<&'a SRSCard>)
        ensures
            r@.map_values(|c: &SRSCard| *c) == crate::srs::card::due_cards_of(
                cards@,
                current_date@,
            ),
    {
        let ghost pred = |c: SRSCard| c.spec_is_due(current_date@);
        let n = cards.len();
        let mut r: Vec<&SRSCard> = Vec::new();
        let mut i: usize = 0;
        proof {
            lemma_filter_take_zero(cards@, pred);
        }
        while i < n
            invariant
                n == cards@.len(),
                i <= n,
                pred == (|c: SRSCard| c.spec_is_due(current_date@)),
                r@.map_values(|c: &SRSCard| *c) =~= cards@.take(i as int).filter(pred),
            decreases n - i,
        {
            proof {
                lemma_filter_take_step(cards@, i as int, pred);
            }
            if cards[i].is_due(current_date) {
                r.push(&cards[i]);
            }
            i = i + 1;
        }
        proof {
            lemma_take_all(cards@);
        }
        r
    }

    /// Get cards that are considered weak (low ease factor or accuracy);
    /// thresholds are in hundredths and hundredths of a percent.
    pub fn get_weak_cards(
        cards: &Vec<SRSCard>,
        ease_threshold: u32,
        accuracy_threshold: u32,
    ) -> (r: Vec<&SRSCard>)
        requires
            forall|i: int|
                0 <= i < cards@.len() ==> (#[trigger] cards@[i]).correct_reviews
                    <= cards@[i].total_reviews,
        ensures
            r@.map_values(|c: &SRSCard| *c) == cards@.filter(
                |c: SRSCard| c.spec_is_weak(ease_threshold, accuracy_threshold),
            ),
    {
        let ghost pred = |c: SRSCard| c.spec_is_weak(ease_threshold, accuracy_threshold);
        let n = cards.len();
        let mut r: Vec<&SRSCard> = Vec::new();
        let mut i: usize = 0;
        proof {
            lemma_filter_take_zero(cards@, pred);
        }
        while i < n
            invariant
                n == cards@.len(),
                i <= n,
                forall|k: int|
                    0 <= k < cards@.len() ==> (#[trigger] cards@[k]).correct_reviews
                        <= cards@[k].total_reviews,
                pred == (|c: SRSCard| c.spec_is_weak(ease_threshold, accuracy_threshold)),
                r@.map_values(|c: &SRSCard| *c) =~= cards@.take(i as int).filter(pred),
            decreases n - i,
        {
            proof {
                lemma_filter_take_step(cards@, i as int, pred);
            }
            if cards[i].is_weak(ease_threshold, accuracy_threshold) {
                r.push(&cards[i]);
            }
            i = i + 1;
        }
        proof {
            lemma_take_all(cards@);
        }
        r
    }

    /// Get new cards that haven't been reviewed yet.
    pub fn get_new_cards(cards: &Vec<SRSCard>) -> (r: Vec<&SRSCard>)
        ensures
            r@.map_values(|c: &SRSCard| *c) == cards@.filter(|c: SRSCard| c.total_reviews == 0),
    {
        let ghost pred = |c: SRSCard| c.total_reviews == 0;
        let n = cards.len();
        let mut r: Vec<&SRSCard> = Vec::new();
        let mut i: usize = 0;
        proof {
            lemma_filter_take_zero(cards@, pred);
        }
        while i < n
            invariant
                n == cards@.len(),
                i <= n,
                pred == (|c: SRSCard| c.total_reviews == 0),
                r@.map_values(|c: &SRSCard| *c) =~= cards@.take(i as int).filter(pred),
            decreases n - i,
        {
            proof {
                lemma_filter_take_step(cards@, i as int, pred);
            }
            if cards[i].total_reviews == 0 {
                r.push(&cards[i]);
            }
            i = i + 1;
        }
        proof {
            lemma_take_all(cards@);
        }
        r
    }

    /// Sort cards by priority for review: due cards before cards that are
    /// not due, and among cards with the same due status the harder card
    /// (lower ease factor) first.  The cards are permuted, nothing else.
    pub fn sort_by_priority(cards: &mut Vec<SRSCard>, current_date: &str)
        ensures
            final (cards)@.len() == old(cards)@.len(),
            final (cards)@.to_multiset() == old(cards)@.to_multiset(),
            forall|a: int, b: int|
                0 <= a < b < final (cards)@.len() ==> prio_le(
                final (cards)@[a],
                final (cards)@[b],
                current_date@,
            ),
    {
        let ghost orig = old(cards)@;
        let ghost today = current_date@;
        let n = cards.len();
        if n == 0 {
            return ;
        }
        let mut i: usize = 1;
        while i < n
            invariant
                1 <= i <= n,
                n == cards@.len(),
                cards@.to_multiset() == orig.to_multiset(),
                today == current_date@,
                forall|a: int, b: int|
                    0 <= a < b < i ==> prio_le(cards@[a], cards@[b], today),
            decreases n - i,
        {
            let mut j: usize = i;
            while j > 0 && !prio_le_exec(&cards[j - 1], &cards[j], current_date)
                invariant
                    0 <= j <= i < n,
                    n == cards@.len(),
                    cards@.to_multiset() == orig.to_multiset(),
                    today == current_date@,
                    forall|a: int, b: int|
                        0 <= a < b <= i && b != j ==> prio_le(cards@[a], cards@[b], today),
                    forall|b: int| j < b <= i ==> prio_le(cards@[j as int], cards@[b], today),
                decreases j,
            {
                let ghost before = cards@;
                let x = cards.remove(j);
                let ghost mid = cards@;
                cards.insert(j - 1, x);
                proof {
                    assert(mid == before.remove(j as int));
                    assert(x == before[j as int]);
                    assert(mid.to_multiset() == before.to_multiset().remove(x));
                    assert(cards@ == mid.insert(j as int - 1, x));
                    assert(cards@.to_multiset() == mid.to_multiset().insert(x));
                    assert(before.contains(x));
                    assert(before.to_multiset().count(x) > 0);
                    assert(cards@.to_multiset() =~= before.to_multiset());
                    assert(cards@[j as int - 1] == before[j as int]);
                    assert(cards@[j as int] == before[j as int - 1]);
                    assert(forall|k: int|
                        0 <= k < before.len() && k != j - 1 && k != j ==> cards@[k] == before[k]);
                }
                j = j - 1;
            }
            proof {
                assert forall|a: int, b: int| 0 <= a < b <= i implies prio_le(
                    cards@[a],
                    cards@[b],
                    today,
                ) by {
                    if b == j && j > 0 {
                        assert(prio_le(cards@[j - 1], cards@[j as int], today));
                        if a < j - 1 {
                            assert(prio_le(cards@[a], cards@[j - 1], today));
                        }
                    }
                }
            }
            i = i + 1;
        }
    }

    /// Add days to a `YYYY-MM-DD` date string.  A string without exactly
    /// two dashes is returned unchanged; parts that fail to parse fall
    /// back to year 2024, month 1, day 1.
    pub fn add_days_to_date(date: &str, days: u32) -> (r: String)
        ensures
            r@ == add_days_spec(date@, days as int),
    {
        let len = date.unicode_len();
        // Find the dash positions.
        let mut dashes: Vec<usize> = Vec::new();
        let mut i: usize = 0;
        while i < len
            invariant
                len == date@.len(),
                i <= len,
                dashes_from(date@, 0) =~= dashes@.map_values(|u: usize| u as int) + dashes_from(
                    date@,
                    i as int,
                ),
                forall|k: int| 0 <= k < dashes@.len() ==> #[trigger] dashes@[k] < i,
                forall|k1: int, k2: int|
                    0 <= k1 < k2 < dashes@.len() ==> dashes@[k1] < dashes@[k2],
            decreases len - i,
        {
            let c = date.get_char(i);
            if c == '-' {
                let ghost old_d = dashes@;
                dashes.push(i);
                proof {
                    assert(dashes@.map_values(|u: usize| u as int) =~= old_d.map_values(
                        |u: usize| u as int,
                    ).push(i as int));
                    assert(dashes_from(date@, i as int) == seq![i as int] + dashes_from(
                        date@,
                        i as int + 1,
                    ));
                    assert(old_d.map_values(|u: usize| u as int) + dashes_from(date@, i as int)
                        =~= dashes@.map_values(|u: usize| u as int) + dashes_from(
                        date@,
                        i as int + 1,
                    ));
                }
            } else {
                proof {
                    assert(dashes_from(date@, i as int) == dashes_from(date@, i as int + 1));
                }
            }
            i = i + 1;
        }
        proof {
            assert(dashes_from(date@, len as int) =~= Seq::<int>::empty());
            assert(dashes_from(date@, 0) =~= dashes@.map_values(|u: usize| u as int));
        }
        if dashes.len() != 2 {
            return date.to_owned();
        }
        let d0 = dashes[0];
        let d1 = dashes[1];
        assert(d0 < d1 < len);
        let year_part = date.substring_char(0, d0);
        let month_part = date.substring_char(d0 + 1, d1);
        let day_part = date.substring_char(d1 + 1, len);
        let year: u64 = match parse_digits(year_part, i32::MAX as u64) {
            Some(v) => v,
            None => 2024,
        };
        let month: u64 = match parse_digits(month_part, u32::MAX as u64) {
            Some(v) => v,
            None => 1,
        };
        let day: u64 = match parse_digits(day_part, u32::MAX as u64) {
            Some(v) => v,
            None => 1,
        };
        let ghost y0 = year as int;
        let ghost m0 = month as int;
        let ghost dd0 = day as int + days as int;

        let mut y: u64 = year;
        let mut m: u64 = month;
        let mut d: u64 = day + days as u64;
        while d > days_in_month(y, m)
            invariant
                roll_date(y0, m0, dd0) == roll_date(y as int, m as int, d as int),
                y + d <= y0 + dd0,
                m <= 12 || m == m0,
                m0 <= u32::MAX,
                y0 <= i32::MAX,
                dd0 <= u32::MAX as int + u32::MAX as int,
            decreases d,
        {
            let dim = days_in_month(y, m);
            d = d - dim;
            if m + 1 > 12 {
                m = 1;
                y = y + 1;
            } else {
                m = m + 1;
            }
        }
        // Render the rolled date, zero-padded.
        let mut out = String::new();
        push_padded4(&mut out, y);
        out.append("-");
        push_padded2(&mut out, m);
        out.append("-");
        push_padded2(&mut out, d);
        proof {
            assert(roll_date(y as int, m as int, d as int) == (y as int, m as int, d as int));
            reveal_strlit("-");
            assert("-"@ =~= seq![digit_char(0)].update(0, '-'));
            assert(out@ =~= date_str(y as int, m as int, d as int));
            assert(date@.subrange(0, d0 as int) == year_part@);
            assert(date@.subrange(d0 as int + 1, d1 as int) == month_part@);
            assert(date@.subrange(d1 as int + 1, len as int) == day_part@);
            assert(y0 == num_or(date@.subrange(0, d0 as int), 2024, i32::MAX as int));
            assert(m0 == num_or(date@.subrange(d0 as int + 1, d1 as int), 1, u32::MAX as int));
            assert(day as int == num_or(
                date@.subrange(d1 as int + 1, len as int),
                1,
                u32::MAX as int,
            ));
        }
        out
    }
}

/// The review priority order: due cards come before cards that are not
/// due; within the same due status, lower ease factor comes first.
pub open spec fn prio_le(a: SRSCard, b: SRSCard, today: Seq<char>) -> bool {
    if a.spec_is_due(today) != b.spec_is_due(today) {
        a.spec_is_due(today)
    } else {
        a.ease_factor <= b.ease_factor
    }
}

/// Decides `prio_le`.
fn prio_le_exec(a: &SRSCard, b: &SRSCard, current_date: &str) -> (r: bool)
    ensures
        r == prio_le(*a, *b, current_date@),
{
    let ad = a.is_due(current_date);
    let bd = b.is_due(current_date);
    if ad != bd {
        ad
    } else {
        a.ease_factor <= b.ease_factor
    }
}

// ---------------------------------------------------------------------------
// Laws of the scheduling rule
// ---------------------------------------------------------------------------

/// After any review of a card whose ease factor is in the admissible band,
/// the new ease factor is again in the band 130..=250 (that is, 1.30..=2.50).
pub proof fn lemma_ease_factor_in_band(ef: u32, q: u8)
    requires
        EASE_MIN <= ef <= EASE_MAX,
    ensures
        EASE_MIN <= sched_ease(ef, q) <= EASE_MAX,
{
}

/// A successful review (quality at least 3) lengthens the repetition streak
/// by exactly one and never drives the interval below one day, provided the
/// card has a positive interval or is at the start of its streak; a failed
/// review always resets the streak to zero and the interval to one day.
pub proof fn lemma_review_outcome(interval: u32, ef: u32, reps: u32, q: u8)
    requires
        EASE_MIN <= ef,
        interval >= 1 || reps <= 1,
    ensures
        sched_success(q) ==> sched_reps(reps, q) == reps + 1,
        sched_success(q) ==> sched_interval(interval, ef, reps, q) >= 1,
        !sched_success(q) ==> sched_reps(reps, q) == 0,
        !sched_success(q) ==> sched_interval(interval, ef, reps, q) == 1,
{
    if sched_success(q) && reps >= 2 {
        assert(interval * ef >= 130) by (nonlinear_arith)
            requires
                interval >= 1,
                ef >= 130,
        ;
    }
}

/// The first successful review of a fresh streak yields a one-day interval
/// and the second a six-day interval, whatever the quality, as long as the
/// review was successful.
pub proof fn lemma_early_intervals(interval: u32, ef: u32, q: u8)
    requires
        sched_success(q),
    ensures
        sched_interval(interval, ef, 0, q) == 1,
        sched_interval(interval, ef, 1, q) == 6,
{
}

} // verus!
