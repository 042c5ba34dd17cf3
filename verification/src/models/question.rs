//! Questions that appear inside lessons.

use vstd::prelude::*;

verus! {

/// Represents a question in a lesson.
#[derive(Debug, Clone, PartialEq)]
pub enum Question {
    /// Multiple choice question with one correct answer.
    MultipleChoice {
        /// The question prompt (in source language).
        prompt: String,
        /// The available answer options (in target language).
        options: Vec<String>,
        /// Index of the correct answer (0-based).
        correct_index: usize,
        /// Optional explanation shown after answering.
        explanation: Option<String>,
    },
    /// Free-form typing question.
    Typing {
        /// The question prompt.
        prompt: String,
        /// All accepted correct answers (for variations/synonyms).
        correct_answers: Vec<String>,
        /// Optional hint shown to help the user.
        hint: Option<String>,
        /// Whether to require exact accent marks.
        accent_strict: bool,
    },
    /// Match pairs by dragging/selecting.
    MatchingPairs {
        /// Instructions for the matching exercise.
        prompt: String,
        /// Pairs to match: (left item, right item).
        pairs: Vec<(String, String)>,
    },
    /// Build a sentence from a word bank.
    SentenceBuilder {
        /// The prompt/translation to build.
        prompt: String,
        /// Words available in the word bank (shuffled for display).
        words: Vec<String>,
        /// Indices representing the correct word order.
        correct_order: Vec<usize>,
        /// Extra words that don't belong (distractors).
        distractors: Vec<String>,
    },
}

impl Question {
    /// The prompt text of a question, whatever its variant.
    pub open spec fn spec_prompt(self) -> Seq<char> {
        match self {
            Question::MultipleChoice { prompt, .. } => prompt@,
            Question::Typing { prompt, .. } => prompt@,
            Question::MatchingPairs { prompt, .. } => prompt@,
            Question::SentenceBuilder { prompt, .. } => prompt@,
        }
    }

    /// Get the prompt text for this question.
    pub fn prompt(&self) -> (r: &str)
        ensures
            r@ == self.spec_prompt(),
    {
        match self {
            Question::MultipleChoice { prompt, .. } => prompt.as_str(),
            Question::Typing { prompt, .. } => prompt.as_str(),
            Question::MatchingPairs { prompt, .. } => prompt.as_str(),
            Question::SentenceBuilder { prompt, .. } => prompt.as_str(),
        }
    }

    /// Get the question type as a string.
    pub fn question_type(&self) -> (r: &'static str)
        ensures
            (match self {
                Question::MultipleChoice { .. } => r@ == "multiple_choice"@,
                Question::Typing { .. } => r@ == "typing"@,
                Question::MatchingPairs { .. } => r@ == "matching_pairs"@,
                Question::SentenceBuilder { .. } => r@ == "sentence_builder"@,
            }),
    {
        match self {
            Question::MultipleChoice { .. } => "multiple_choice",
            Question::Typing { .. } => "typing",
            Question::MatchingPairs { .. } => "matching_pairs",
            Question::SentenceBuilder { .. } => "sentence_builder",
        }
    }

    /// Create a new multiple choice question.
    pub fn multiple_choice(
        prompt: String,
        options: Vec<String>,
        correct_index: usize,
        explanation: Option<String>,
    ) -> (r: Self)
        ensures
            r == (Question::MultipleChoice { prompt, options, correct_index, explanation }),
    {
        Question::MultipleChoice { prompt, options, correct_index, explanation }
    }

    /// Create a new typing question.
    pub fn typing(
        prompt: String,
        correct_answers: Vec<String>,
        hint: Option<String>,
        accent_strict: bool,
    ) -> (r: Self)
        ensures
            r == (Question::Typing { prompt, correct_answers, hint, accent_strict }),
    {
        Question::Typing { prompt, correct_answers, hint, accent_strict }
    }

    /// Create a new matching pairs question.
    pub fn matching_pairs(prompt: String, pairs: Vec<(String, String)>) -> (r: Self)
        ensures
            r == (Question::MatchingPairs { prompt, pairs }),
    {
        Question::MatchingPairs { prompt, pairs }
    }

    /// Create a new sentence builder question.
    pub fn sentence_builder(
        prompt: String,
        words: Vec<String>,
        correct_order: Vec<usize>,
        distractors: Vec<String>,
    ) -> (r: Self)
        ensures
            r == (Question::SentenceBuilder { prompt, words, correct_order, distractors }),
    {
        Question::SentenceBuilder { prompt, words, correct_order, distractors }
    }
}

/// Mode for typing answer validation.
#[derive(Debug, Clone, Copy, PartialEq, Eq, Structural, Default)]
pub enum TypingMode {
    /// Ignores accent differences (e.g., "cafe" matches "cafe" with accents).
    #[default]
    Lenient,
    /// Requires exact accent marks.
    Strict,
}

} // verus!
