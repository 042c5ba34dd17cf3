//! Review cards and their derived mastery classification.
//!
//! The adaptive ease factor is held in hundredths, so that the whole
//! scheduling algorithm is exact integer arithmetic: the value 250 stands
//! for an ease factor of 2.50, and the invariant band 1.30..=2.50 is
//! 130..=250.  Accuracy percentages are likewise held in hundredths of a
//! percent: 10000 stands for 100%.

use vstd::prelude::*;

use crate::util::{lemma_filter_take_step, lemma_filter_take_zero, lemma_take_all, lex_le, str_le};

verus! {

/// Lowest admissible ease factor, in hundredths.
pub const EASE_MIN: u32 = 130;

/// Highest admissible ease factor, in hundredths.
pub const EASE_MAX: u32 = 250;

/// Ease factor of a fresh card, in hundredths.
pub const EASE_START: u32 = 250;

/// An SRS card representing a vocabulary item to be reviewed.
#[derive(Debug, Clone, PartialEq)]
pub struct SRSCard {
    /// Unique identifier for this card.
    pub word_id: String,
    /// Word in the source language.
    pub source_word: String,
    /// Word in the target language.
    pub target_word: String,
    /// Language pair code (e.g., "en_to_pt_br").
    pub language_pair: String,
    /// CEFR level (A1-C2).
    pub level: String,
    /// ID of the lesson this word came from.
    pub lesson_id: String,
    /// Optional pronunciation guide.
    pub pronunciation: Option<String>,
    /// Optional example sentence.
    pub example_sentence: Option<String>,
    /// Ease factor in hundredths (starts at 250, minimum 130).
    pub ease_factor: u32,
    /// Interval in days until next review.
    pub interval: u32,
    /// Number of successful consecutive reviews.
    pub repetitions: u32,
    /// ISO date string for next scheduled review.
    pub next_review_date: String,
    /// ISO date string of last review (if any).
    pub last_reviewed: Option<String>,
    /// Total number of times this card was reviewed.
    pub total_reviews: u32,
    /// Number of correct reviews.
    pub correct_reviews: u32,
    /// Quality rating from last review (0-5).
    pub last_quality: Option<u8>,
    /// ISO date string when card was created.
    pub created_at: String,
}

/// The accuracy of `correct` hits out of `total` tries, in hundredths of a
/// percent, rounded down; zero when there were no tries.
pub open spec fn accuracy_centi_spec(correct: int, total: int) -> int {
    if total == 0 {
        0
    } else {
        correct * 10000 / total
    }
}

impl SRSCard {
    /// The numeric scheduling state is in its invariant band.
    pub open spec fn wf(self) -> bool {
        &&& EASE_MIN <= self.ease_factor <= EASE_MAX
        &&& self.correct_reviews <= self.total_reviews
    }

    /// Create a new SRS card with default scheduling values.
    pub fn new(
        word_id: String,
        source_word: String,
        target_word: String,
        language_pair: String,
        level: String,
        lesson_id: String,
        current_date: &str,
    ) -> (r: Self)
        ensures
            r.word_id == word_id,
            r.source_word == source_word,
            r.target_word == target_word,
            r.language_pair == language_pair,
            r.level == level,
            r.lesson_id == lesson_id,
            r.pronunciation is None,
            r.example_sentence is None,
            r.ease_factor == EASE_START,
            r.interval == 0,
            r.repetitions == 0,
            r.next_review_date@ == current_date@,
            r.last_reviewed is None,
            r.total_reviews == 0,
            r.correct_reviews == 0,
            r.last_quality is None,
            r.created_at@ == current_date@,
            r.wf(),
    {
        Self {
            word_id,
            source_word,
            target_word,
            language_pair,
            level,
            lesson_id,
            pronunciation: None,
            example_sentence: None,
            ease_factor: EASE_START,
            interval: 0,
            repetitions: 0,
            next_review_date: current_date.to_owned(),
            last_reviewed: None,
            total_reviews: 0,
            correct_reviews: 0,
            last_quality: None,
            created_at: current_date.to_owned(),
        }
    }

    /// Create a new card with pronunciation and example.
    pub fn with_details(
        word_id: String,
        source_word: String,
        target_word: String,
        language_pair: String,
        level: String,
        lesson_id: String,
        pronunciation: Option<String>,
        example_sentence: Option<String>,
        current_date: &str,
    ) -> (r: Self)
        ensures
            r.word_id == word_id,
            r.source_word == source_word,
            r.target_word == target_word,
            r.language_pair == language_pair,
            r.level == level,
            r.lesson_id == lesson_id,
            r.pronunciation == pronunciation,
            r.example_sentence == example_sentence,
            r.ease_factor == EASE_START,
            r.interval == 0,
            r.repetitions == 0,
            r.next_review_date@ == current_date@,
            r.last_reviewed is None,
            r.total_reviews == 0,
            r.correct_reviews == 0,
            r.last_quality is None,
            r.created_at@ == current_date@,
            r.wf(),
    {
        let mut card = Self::new(
            word_id,
            source_word,
            target_word,
            language_pair,
            level,
            lesson_id,
            current_date,
        );
        card.pronunciation = pronunciation;
        card.example_sentence = example_sentence;
        card
    }

    /// A card is due when its next review date is on or before the current
    /// date, under the lexicographic order that coincides with chronological
    /// order on `YYYY-MM-DD` strings.
    pub open spec fn spec_is_due(self, current_date: Seq<char>) -> bool {
        lex_le(self.next_review_date@, current_date)
    }

    /// Check if this card is due for review.
    pub fn is_due(&self, current_date: &str) -> (r: bool)
        ensures
            r == self.spec_is_due(current_date@),
    {
        str_le(self.next_review_date.as_str(), current_date)
    }

    /// Calculate the accuracy rate, in hundredths of a percent (0..=10000).
    pub fn accuracy_rate(&self) -> (r: u32)
        requires
            self.correct_reviews <= self.total_reviews,
        ensures
            r == accuracy_centi_spec(self.correct_reviews as int, self.total_reviews as int),
            r <= 10000,
    {
        if self.total_reviews == 0 {
            0
        } else {
            let wide = (self.correct_reviews as u64) * 10000 / (self.total_reviews as u64);
            proof {
                assert(self.correct_reviews as int * 10000 / (self.total_reviews as int) <= 10000)
                    by (nonlinear_arith)
                    requires
                        0 < self.total_reviews as int,
                        0 <= self.correct_reviews as int <= self.total_reviews as int,
                ;
            }
            wide as u32
        }
    }

    /// A card is weak when its ease factor is below `ease_threshold` (in
    /// hundredths) or its accuracy is below `accuracy_threshold` (in
    /// hundredths of a percent).
    pub open spec fn spec_is_weak(self, ease_threshold: u32, accuracy_threshold: u32) -> bool {
        self.ease_factor < ease_threshold || accuracy_centi_spec(
            self.correct_reviews as int,
            self.total_reviews as int,
        ) < accuracy_threshold
    }

    /// Check if this card is considered "weak" (low ease factor or accuracy).
    pub fn is_weak(&self, ease_threshold: u32, accuracy_threshold: u32) -> (r: bool)
        requires
            self.correct_reviews <= self.total_reviews,
        ensures
            r == self.spec_is_weak(ease_threshold, accuracy_threshold),
    {
        self.ease_factor < ease_threshold || self.accuracy_rate() < accuracy_threshold
    }

    /// Get mastery level based on repetitions and ease factor.  The result
    /// is a pure function of those two fields alone, recomputed on demand.
    pub fn mastery_level(&self) -> (r: MasteryLevel)
        ensures
            r == mastery_spec(self.repetitions, self.ease_factor),
    {
        if self.repetitions == 0 {
            MasteryLevel::New
        } else if self.repetitions <= 2 {
            MasteryLevel::Learning
        } else if self.repetitions <= 5 && self.ease_factor >= 200 {
            MasteryLevel::Familiar
        } else if self.repetitions >= 6 && self.repetitions <= 10 && self.ease_factor >= 220 {
            MasteryLevel::Proficient
        } else if self.repetitions > 10 && self.ease_factor >= 240 {
            MasteryLevel::Mastered
        } else {
            MasteryLevel::Learning
        }
    }
}

/// The mastery classification rule: a pure function of the repetition count
/// and the ease factor (in hundredths).  Any combination that does not meet
/// its tier's ease threshold falls back to Learning.
pub open spec fn mastery_spec(repetitions: u32, ease_factor: u32) -> MasteryLevel {
    if repetitions == 0 {
        MasteryLevel::New
    } else if 1 <= repetitions <= 2 {
        MasteryLevel::Learning
    } else if 3 <= repetitions <= 5 && ease_factor >= 200 {
        MasteryLevel::Familiar
    } else if 6 <= repetitions <= 10 && ease_factor >= 220 {
        MasteryLevel::Proficient
    } else if repetitions > 10 && ease_factor >= 240 {
        MasteryLevel::Mastered
    } else {
        MasteryLevel::Learning
    }
}

/// Mastery levels for vocabulary items.
#[derive(Debug, Clone, Copy, PartialEq, Eq, Structural)]
pub enum MasteryLevel {
    /// Card has never been reviewed.
    New,
    /// Card is in the learning phase (1-2 successful reviews).
    Learning,
    /// Card is becoming familiar (3-5 successful reviews).
    Familiar,
    /// Card is well-known (6-10 successful reviews).
    Proficient,
    /// Card is fully mastered (10+ successful reviews with high ease).
    Mastered,
}

impl MasteryLevel {
    /// Get display name for mastery level.
    pub fn display_name(&self) -> (r: &'static str)
        ensures
            (match self {
                MasteryLevel::New => r@ == "New"@,
                MasteryLevel::Learning => r@ == "Learning"@,
                MasteryLevel::Familiar => r@ == "Familiar"@,
                MasteryLevel::Proficient => r@ == "Proficient"@,
                MasteryLevel::Mastered => r@ == "Mastered"@,
            }),
    {
        match self {
            MasteryLevel::New => "New",
            MasteryLevel::Learning => "Learning",
            MasteryLevel::Familiar => "Familiar",
            MasteryLevel::Proficient => "Proficient",
            MasteryLevel::Mastered => "Mastered",
        }
    }

    /// Get color for mastery level (hex code).
    pub fn color(&self) -> (r: &'static str)
        ensures
            (match self {
                MasteryLevel::New => r@ == "#9E9E9E"@,
                MasteryLevel::Learning => r@ == "#FF9800"@,
                MasteryLevel::Familiar => r@ == "#FFEB3B"@,
                MasteryLevel::Proficient => r@ == "#8BC34A"@,
                MasteryLevel::Mastered => r@ == "#4CAF50"@,
            }),
    {
        match self {
            MasteryLevel::New => "#9E9E9E",
            MasteryLevel::Learning => "#FF9800",
            MasteryLevel::Familiar => "#FFEB3B",
            MasteryLevel::Proficient => "#8BC34A",
            MasteryLevel::Mastered => "#4CAF50",
        }
    }
}

/// The cards of `s` whose mastery classification is `m`.
pub open spec fn with_mastery(s: Seq<SRSCard>, m: MasteryLevel) -> Seq<SRSCard> {
    s.filter(|c: SRSCard| mastery_spec(c.repetitions, c.ease_factor) == m)
}

/// The cards of `s` that are due on `today`.
pub open spec fn due_cards_of(s: Seq<SRSCard>, today: Seq<char>) -> Seq<SRSCard> {
    s.filter(|c: SRSCard| c.spec_is_due(today))
}

/// The cards of `s` with at least one recorded review.
pub open spec fn reviewed_cards_of(s: Seq<SRSCard>) -> Seq<SRSCard> {
    s.filter(|c: SRSCard| c.total_reviews > 0)
}

/// The sum of the ease factors of `s`, in hundredths.
pub open spec fn sum_ease(s: Seq<SRSCard>) -> int
    decreases s.len(),
{
    if s.len() == 0 {
        0
    } else {
        sum_ease(s.drop_last()) + s.last().ease_factor
    }
}

/// The sum of the accuracies of `s`, in hundredths of a percent.
pub open spec fn sum_accuracy(s: Seq<SRSCard>) -> int
    decreases s.len(),
{
    if s.len() == 0 {
        0
    } else {
        sum_accuracy(s.drop_last()) + accuracy_centi_spec(
            s.last().correct_reviews as int,
            s.last().total_reviews as int,
        )
    }
}

/// Statistics for a collection of SRS cards.  The two averages are in
/// hundredths (ease factor) and hundredths of a percent (accuracy), both
/// rounded down.
#[derive(Debug, Clone, PartialEq)]
pub struct SRSCardStats {
    pub total_cards: usize,
    pub due_today: usize,
    pub new_cards: usize,
    pub learning_cards: usize,
    pub familiar_cards: usize,
    pub proficient_cards: usize,
    pub mastered_cards: usize,
    /// Mean ease factor over all cards, in hundredths; 0 for no cards.
    pub average_ease_factor: u32,
    /// Mean accuracy over the cards with at least one review, in hundredths
    /// of a percent; 0 when no card has been reviewed.
    pub average_accuracy: u32,
}

impl SRSCardStats {
    /// Calculate statistics from a collection of cards.  An empty collection
    /// yields the all-zero statistics.
    pub fn from_cards(cards: &Vec<SRSCard>, current_date: &str) -> (r: Self)
        requires
            forall|i: int| 0 <= i < cards@.len() ==> (#[trigger] cards@[i]).wf(),
            cards@.len() * 10000 <= u64::MAX,
        ensures
            r.total_cards == cards@.len(),
            r.due_today == due_cards_of(cards@, current_date@).len(),
            r.new_cards == with_mastery(cards@, MasteryLevel::New).len(),
            r.learning_cards == with_mastery(cards@, MasteryLevel::Learning).len(),
            r.familiar_cards == with_mastery(cards@, MasteryLevel::Familiar).len(),
            r.proficient_cards == with_mastery(cards@, MasteryLevel::Proficient).len(),
            r.mastered_cards == with_mastery(cards@, MasteryLevel::Mastered).len(),
            r.average_ease_factor == (if cards@.len() == 0 {
                0int
            } else {
                sum_ease(cards@) / cards@.len() as int
            }),
            r.average_accuracy == (if reviewed_cards_of(cards@).len() == 0 {
                0int
            } else {
                sum_accuracy(reviewed_cards_of(cards@)) / reviewed_cards_of(cards@).len() as int
            }),
    {
        let n = cards.len();
        let ghost today = current_date@;
        let ghost due_pred = |c: SRSCard| c.spec_is_due(today);
        let ghost new_pred = |c: SRSCard| mastery_spec(c.repetitions, c.ease_factor)
            == MasteryLevel::New;
        let ghost learning_pred = |c: SRSCard| mastery_spec(c.repetitions, c.ease_factor)
            == MasteryLevel::Learning;
        let ghost familiar_pred = |c: SRSCard| mastery_spec(c.repetitions, c.ease_factor)
            == MasteryLevel::Familiar;
        let ghost proficient_pred = |c: SRSCard| mastery_spec(c.repetitions, c.ease_factor)
            == MasteryLevel::Proficient;
        let ghost mastered_pred = |c: SRSCard| mastery_spec(c.repetitions, c.ease_factor)
            == MasteryLevel::Mastered;
        let ghost reviewed_pred = |c: SRSCard| c.total_reviews > 0;

        let mut due_today: usize = 0;
        let mut new_cards: usize = 0;
        let mut learning_cards: usize = 0;
        let mut familiar_cards: usize = 0;
        let mut proficient_cards: usize = 0;
        let mut mastered_cards: usize = 0;
        let mut ease_sum: u64 = 0;
        let mut acc_sum: u64 = 0;
        let mut reviewed: usize = 0;
        let mut i: usize = 0;
        proof {
            lemma_filter_take_zero(cards@, due_pred);
            lemma_filter_take_zero(cards@, new_pred);
            lemma_filter_take_zero(cards@, learning_pred);
            lemma_filter_take_zero(cards@, familiar_pred);
            lemma_filter_take_zero(cards@, proficient_pred);
            lemma_filter_take_zero(cards@, mastered_pred);
            lemma_filter_take_zero(cards@, reviewed_pred);
        }
        while i < n
            invariant
                n == cards@.len(),
                i <= n,
                forall|k: int| 0 <= k < cards@.len() ==> (#[trigger] cards@[k]).wf(),
                cards@.len() * 10000 <= u64::MAX,
                today == current_date@,
                due_pred == (|c: SRSCard| c.spec_is_due(today)),
                new_pred == (|c: SRSCard|
                    mastery_spec(c.repetitions, c.ease_factor) == MasteryLevel::New),
                learning_pred == (|c: SRSCard|
                    mastery_spec(c.repetitions, c.ease_factor) == MasteryLevel::Learning),
                familiar_pred == (|c: SRSCard|
                    mastery_spec(c.repetitions, c.ease_factor) == MasteryLevel::Familiar),
                proficient_pred == (|c: SRSCard|
                    mastery_spec(c.repetitions, c.ease_factor) == MasteryLevel::Proficient),
                mastered_pred == (|c: SRSCard|
                    mastery_spec(c.repetitions, c.ease_factor) == MasteryLevel::Mastered),
                reviewed_pred == (|c: SRSCard| c.total_reviews > 0),
                due_today == cards@.take(i as int).filter(due_pred).len(),
                new_cards == cards@.take(i as int).filter(new_pred).len(),
                learning_cards == cards@.take(i as int).filter(learning_pred).len(),
                familiar_cards == cards@.take(i as int).filter(familiar_pred).len(),
                proficient_cards == cards@.take(i as int).filter(proficient_pred).len(),
                mastered_cards == cards@.take(i as int).filter(mastered_pred).len(),
                reviewed == cards@.take(i as int).filter(reviewed_pred).len(),
                ease_sum == sum_ease(cards@.take(i as int)),
                acc_sum == sum_accuracy(cards@.take(i as int).filter(reviewed_pred)),
                ease_sum <= i * 10000,
                acc_sum <= reviewed * 10000,
                reviewed <= i,
            decreases n - i,
        {
            proof {
                lemma_filter_take_step(cards@, i as int, due_pred);
                lemma_filter_take_step(cards@, i as int, new_pred);
                lemma_filter_take_step(cards@, i as int, learning_pred);
                lemma_filter_take_step(cards@, i as int, familiar_pred);
                lemma_filter_take_step(cards@, i as int, proficient_pred);
                lemma_filter_take_step(cards@, i as int, mastered_pred);
                lemma_filter_take_step(cards@, i as int, reviewed_pred);
                assert(cards@.take(i as int + 1).drop_last() =~= cards@.take(i as int));
                assert(i * 10000 + 10000 <= cards@.len() * 10000) by (nonlinear_arith)
                    requires
                        i < cards@.len(),
                ;
                assert(reviewed * 10000 + 10000 <= (reviewed + 1) * 10000) by (nonlinear_arith);
            }
            let c = &cards[i];
            if c.is_due(current_date) {
                due_today = due_today + 1;
            }
            let m = c.mastery_level();
            match m {
                MasteryLevel::New => {
                    new_cards = new_cards + 1;
                },
                MasteryLevel::Learning => {
                    learning_cards = learning_cards + 1;
                },
                MasteryLevel::Familiar => {
                    familiar_cards = familiar_cards + 1;
                },
                MasteryLevel::Proficient => {
                    proficient_cards = proficient_cards + 1;
                },
                MasteryLevel::Mastered => {
                    mastered_cards = mastered_cards + 1;
                },
            }
            ease_sum = ease_sum + c.ease_factor as u64;
            if c.total_reviews > 0 {
                let a = c.accuracy_rate();
                proof {
                    let s = cards@.take(i as int).filter(reviewed_pred).push(cards@[i as int]);
                    assert(s.drop_last() =~= cards@.take(i as int).filter(reviewed_pred));
                }
                acc_sum = acc_sum + a as u64;
                reviewed = reviewed + 1;
            }
            i = i + 1;
        }
        proof {
            lemma_take_all(cards@);
        }
        let average_ease_factor: u32 = if n == 0 {
            0
        } else {
            proof {
                assert(ease_sum / (n as u64) <= 10000) by (nonlinear_arith)
                    requires
                        ease_sum <= (n as u64) * 10000,
                        n > 0,
                ;
            }
            (ease_sum / (n as u64)) as u32
        };
        let average_accuracy: u32 = if reviewed == 0 {
            0
        } else {
            proof {
                assert(acc_sum / (reviewed as u64) <= 10000) by (nonlinear_arith)
                    requires
                        acc_sum <= (reviewed as u64) * 10000,
                        reviewed > 0,
                ;
            }
            (acc_sum / (reviewed as u64)) as u32
        };
        Self {
            total_cards: n,
            due_today,
            new_cards,
            learning_cards,
            familiar_cards,
            proficient_cards,
            mastered_cards,
            average_ease_factor,
            average_accuracy,
        }
    }
}

} // verus!
