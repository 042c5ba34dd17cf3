//! Questions for language-learning exercises: multiple choice and typing,
//! with accent-insensitive text comparison.

use vstd::prelude::*;

use crate::textnorm::{lower_of, lowercase, nfd_of, nfd_str, str_trim, trim_spec};
use crate::util::str_eq;

verus! {

/// Types of questions available.
#[derive(Debug, Clone, Copy, PartialEq, Eq, Structural, Hash)]
pub enum QuestionType {
    /// Multiple choice question - recognition phase.
    MultipleChoice,
    /// Typing question - production phase.
    Typing,
}

impl QuestionType {
    /// Returns the display name of the question type.
    pub fn display_name(&self) -> (r: &'static str)
        ensures
            (match self {
                QuestionType::MultipleChoice => r@ == "Multiple Choice"@,
                QuestionType::Typing => r@ == "Typing"@,
            }),
    {
        match self {
            QuestionType::MultipleChoice => "Multiple Choice",
            QuestionType::Typing => "Typing",
        }
    }
}

/// Typing mode for accent strictness.
#[derive(Debug, Clone, Copy, PartialEq, Eq, Structural, Hash, Default)]
pub enum TypingMode {
    /// Lenient mode - ignores accent mistakes.
    #[default]
    Lenient,
    /// Strict mode - requires exact accents.
    Strict,
}

impl TypingMode {
    /// Returns the display name of the typing mode.
    pub fn display_name(&self) -> (r: &'static str)
        ensures
            (match self {
                TypingMode::Lenient => r@ == "Lenient (accents optional)"@,
                TypingMode::Strict => r@ == "Strict (accents required)"@,
            }),
    {
        match self {
            TypingMode::Lenient => "Lenient (accents optional)",
            TypingMode::Strict => "Strict (accents required)",
        }
    }

    /// Returns a description of this mode.
    pub fn description(&self) -> (r: &'static str)
        ensures
            (match self {
                TypingMode::Lenient => r@
                    == "Missing accents won't count as mistakes. Good for beginners."@,
                TypingMode::Strict => r@.len() > 0,
            }),
    {
        proof {
            reveal_strlit(
                "Missing tildes (~), cedillas (\u{e7}), and other accents count as mistakes. Essential for advanced learning where 'p\u{e3}o' (bread) and 'pau' (stick) must be distinguished.",
            );
        }
        match self {
            TypingMode::Lenient => "Missing accents won't count as mistakes. Good for beginners.",
            TypingMode::Strict => "Missing tildes (~), cedillas (\u{e7}), and other accents count as mistakes. Essential for advanced learning where 'p\u{e3}o' (bread) and 'pau' (stick) must be distinguished.",
        }
    }
}

/// A multiple choice option.
#[derive(Debug, Clone, PartialEq)]
pub struct MultipleChoiceOption {
    /// The option text.
    pub text: String,
    /// Whether this is the correct answer.
    pub is_correct: bool,
    /// Optional explanation for why this is correct/incorrect.
    pub explanation: Option<String>,
}

impl MultipleChoiceOption {
    /// Create a new option.
    pub fn new(text: String, is_correct: bool) -> (r: Self)
        ensures
            r.text == text,
            r.is_correct == is_correct,
            r.explanation is None,
    {
        Self { text, is_correct, explanation: None }
    }

    /// Create an option with explanation.
    pub fn with_explanation(text: String, is_correct: bool, explanation: String) -> (r: Self)
        ensures
            r.text == text,
            r.is_correct == is_correct,
            r.explanation == Some(explanation),
    {
        Self { text, is_correct, explanation: Some(explanation) }
    }
}

/// Context for a question.
#[derive(Debug, Clone, PartialEq)]
pub struct QuestionContext {
    /// A scenario or situation description.
    pub scenario: String,
    /// Optional image URL or reference.
    pub image: Option<String>,
    /// Optional audio clip reference.
    pub audio: Option<String>,
}

impl QuestionContext {
    /// Create a new context with just a scenario.
    pub fn new(scenario: String) -> (r: Self)
        ensures
            r.scenario == scenario,
            r.image is None,
            r.audio is None,
    {
        Self { scenario, image: None, audio: None }
    }

    /// Create a context with an image.
    pub fn with_image(scenario: String, image: String) -> (r: Self)
        ensures
            r.scenario == scenario,
            r.image == Some(image),
            r.audio is None,
    {
        Self { scenario, image: Some(image), audio: None }
    }

    /// Create a context with audio.
    pub fn with_audio(scenario: String, audio: String) -> (r: Self)
        ensures
            r.scenario == scenario,
            r.image is None,
            r.audio == Some(audio),
    {
        Self { scenario, image: None, audio: Some(audio) }
    }
}

/// A language learning question.
#[derive(Debug, Clone, PartialEq)]
pub struct Question {
    /// Unique identifier for this question.
    pub id: String,
    /// The type of question.
    pub question_type: QuestionType,
    /// The question prompt.
    pub prompt: String,
    /// Optional context for the question.
    pub context: Option<QuestionContext>,
    /// The correct answer (for typing questions).
    pub correct_answer: String,
    /// Alternative correct answers (for typing questions).
    pub alternative_answers: Vec<String>,
    /// Options for multiple choice questions.
    pub options: Vec<MultipleChoiceOption>,
    /// Hint text (shown after first mistake).
    pub hint: Option<String>,
    /// Explanation shown after answering.
    pub explanation: Option<String>,
    /// Community naturalness score (0-100).
    pub naturalness_score: Option<u8>,
    /// Number of community flags for review.
    pub flag_count: u32,
}

impl Question {
    /// Create a new typing question.
    pub fn typing(id: String, prompt: String, correct_answer: String) -> (r: Self)
        ensures
            r.id == id,
            r.question_type == QuestionType::Typing,
            r.prompt == prompt,
            r.context is None,
            r.correct_answer == correct_answer,
            r.alternative_answers@ =~= Seq::<String>::empty(),
            r.options@ =~= Seq::<MultipleChoiceOption>::empty(),
            r.hint is None,
            r.explanation is None,
            r.naturalness_score is None,
            r.flag_count == 0,
    {
        Self {
            id,
            question_type: QuestionType::Typing,
            prompt,
            context: None,
            correct_answer,
            alternative_answers: Vec::new(),
            options: Vec::new(),
            hint: None,
            explanation: None,
            naturalness_score: None,
            flag_count: 0,
        }
    }

    /// Create a new multiple choice question.  Its correct answer is the
    /// text of the first option marked correct, or empty.
    pub fn multiple_choice(id: String, prompt: String, options: Vec<MultipleChoiceOption>) -> (r:
        Self)
        ensures
            r.id == id,
            r.question_type == QuestionType::MultipleChoice,
            r.prompt == prompt,
            r.context is None,
            r.options == options,
            (exists|i: int| 0 <= i < options@.len() && (#[trigger] options@[i]).is_correct)
                ==> exists|i: int|
                {
                    &&& 0 <= i < options@.len()
                    &&& (#[trigger] options@[i]).is_correct
                    &&& r.correct_answer@ == options@[i].text@
                    &&& forall|j: int| 0 <= j < i ==> !options@[j].is_correct
                },
            (forall|i: int| 0 <= i < options@.len() ==> !(#[trigger] options@[i]).is_correct)
                ==> r.correct_answer@ =~= Seq::<char>::empty(),
            r.alternative_answers@ =~= Seq::<String>::empty(),
            r.hint is None,
            r.explanation is None,
            r.naturalness_score is None,
            r.flag_count == 0,
    {
        let mut correct_answer: Option<String> = None;
        let n = options.len();
        let mut i: usize = 0;
        while i < n
            invariant
                n == options@.len(),
                i <= n,
                (match correct_answer {
                    Some(a) => exists|k: int|
                        {
                            &&& 0 <= k < i
                            &&& (#[trigger] options@[k]).is_correct
                            &&& a@ == options@[k].text@
                            &&& forall|j: int| 0 <= j < k ==> !options@[j].is_correct
                        },
                    None => forall|k: int|
                        0 <= k < i ==> !(#[trigger] options@[k]).is_correct,
                }),
            decreases n - i,
        {
            if correct_answer.is_none() && options[i].is_correct {
                correct_answer = Some(options[i].text.clone());
            }
            i = i + 1;
        }
        let answer = match correct_answer {
            Some(a) => a,
            None => String::new(),
        };
        Self {
            id,
            question_type: QuestionType::MultipleChoice,
            prompt,
            context: None,
            correct_answer: answer,
            alternative_answers: Vec::new(),
            options,
            hint: None,
            explanation: None,
            naturalness_score: None,
            flag_count: 0,
        }
    }

    /// Add context to this question.
    pub fn with_context(self, context: QuestionContext) -> (r: Self)
        ensures
            r == (Self { context: Some(context), ..self }),
    {
        Self { context: Some(context), ..self }
    }

    /// Add a hint to this question.
    pub fn with_hint(self, hint: String) -> (r: Self)
        ensures
            r == (Self { hint: Some(hint), ..self }),
    {
        Self { hint: Some(hint), ..self }
    }

    /// Add an explanation to this question.
    pub fn with_explanation(self, explanation: String) -> (r: Self)
        ensures
            r == (Self { explanation: Some(explanation), ..self }),
    {
        Self { explanation: Some(explanation), ..self }
    }

    /// Add alternative correct answers (for typing questions).
    pub fn with_alternatives(self, alternatives: Vec<String>) -> (r: Self)
        ensures
            r == (Self { alternative_answers: alternatives, ..self }),
    {
        Self { alternative_answers: alternatives, ..self }
    }

    /// Flag this question for review.
    pub fn flag_for_review(&mut self)
        requires
            old(self).flag_count < u32::MAX,
        ensures
            final (self).flag_count == old(self).flag_count + 1,
            final (self).id == old(self).id,
            final (self).question_type == old(self).question_type,
            final (self).prompt == old(self).prompt,
            final (self).context == old(self).context,
            final (self).correct_answer == old(self).correct_answer,
            final (self).alternative_answers == old(self).alternative_answers,
            final (self).options == old(self).options,
            final (self).hint == old(self).hint,
            final (self).explanation == old(self).explanation,
            final (self).naturalness_score == old(self).naturalness_score,
    {
        self.flag_count = self.flag_count + 1;
    }

    /// Set the naturalness score, clamped to at most 100.
    pub fn set_naturalness_score(&mut self, score: u8)
        ensures
            final (self).naturalness_score == Some(
                (if score > 100 {
                    100u8
                } else {
                    score
                }),
            ),
            final (self).flag_count == old(self).flag_count,
            final (self).id == old(self).id,
            final (self).correct_answer == old(self).correct_answer,
    {
        let clamped = if score > 100 {
            100
        } else {
            score
        };
        self.naturalness_score = Some(clamped);
    }
}

/// User's answer to a question.
#[derive(Debug, Clone, PartialEq)]
pub struct Answer {
    /// The question ID this answer is for.
    pub question_id: String,
    /// The user's answer text.
    pub answer_text: String,
    /// The index of the selected option (for multiple choice).
    pub selected_option_index: Option<usize>,
    /// The typing mode used.
    pub typing_mode: TypingMode,
}

impl Answer {
    /// Create a typing answer.
    pub fn typing(question_id: String, answer_text: String) -> (r: Self)
        ensures
            r.question_id == question_id,
            r.answer_text == answer_text,
            r.selected_option_index is None,
            r.typing_mode == TypingMode::Lenient,
    {
        Self {
            question_id,
            answer_text,
            selected_option_index: None,
            typing_mode: TypingMode::Lenient,
        }
    }

    /// Create a typing answer with specific mode.
    pub fn typing_with_mode(question_id: String, answer_text: String, mode: TypingMode) -> (r: Self)
        ensures
            r.question_id == question_id,
            r.answer_text == answer_text,
            r.selected_option_index is None,
            r.typing_mode == mode,
    {
        Self { question_id, answer_text, selected_option_index: None, typing_mode: mode }
    }

    /// Create a multiple choice answer.
    pub fn multiple_choice(question_id: String, option_index: usize) -> (r: Self)
        ensures
            r.question_id == question_id,
            r.answer_text@ =~= Seq::<char>::empty(),
            r.selected_option_index == Some(option_index),
            r.typing_mode == TypingMode::Lenient,
    {
        Self {
            question_id,
            answer_text: String::new(),
            selected_option_index: Some(option_index),
            typing_mode: TypingMode::Lenient,
        }
    }
}

/// Result of checking an answer.
#[derive(Debug, Clone, PartialEq)]
pub struct QuestionResult {
    /// Whether the answer was correct.
    pub is_correct: bool,
    /// The correct answer.
    pub correct_answer: String,
    /// The user's answer.
    pub user_answer: String,
    /// Feedback message.
    pub feedback: String,
    /// Whether accents were the only issue (for lenient mode feedback).
    pub accent_issues_only: bool,
    /// Specific accent mistakes made.
    pub accent_mistakes: Vec<AccentMistake>,
}

/// An accent mistake in typing.
#[derive(Debug, Clone, PartialEq)]
pub struct AccentMistake {
    /// The word with the mistake.
    pub word: String,
    /// The correct word with proper accents.
    pub correct_word: String,
    /// Position in the answer.
    pub position: usize,
}

/// Whether `c` is a combining diacritical mark.
pub open spec fn is_combining_mark(c: char) -> bool {
    0x0300 <= (c as u32) <= 0x036F
}

/// `s` with its combining diacritical marks removed.
pub open spec fn strip_marks(s: Seq<char>) -> Seq<char>
    decreases s.len(),
{
    if s.len() == 0 {
        Seq::empty()
    } else if is_combining_mark(s.last()) {
        strip_marks(s.drop_last())
    } else {
        strip_marks(s.drop_last()).push(s.last())
    }
}

/// The accent-insensitive normal form of a string: canonical
/// decomposition, combining marks removed, lowercased, trimmed.
pub open spec fn accentless_form(s: Seq<char>) -> Seq<char> {
    trim_spec(lower_of(strip_marks(nfd_of(s))))
}

/// Removing the marks of a prefix, one character at a time.
proof fn lemma_strip_marks_step(s: Seq<char>, i: int)
    requires
        0 <= i < s.len(),
    ensures
        strip_marks(s.take(i + 1)) == (if is_combining_mark(s[i]) {
            strip_marks(s.take(i))
        } else {
            strip_marks(s.take(i)).push(s[i])
        }),
{
    assert(s.take(i + 1).drop_last() =~= s.take(i));
    assert(s.take(i + 1).last() == s[i]);
}

/// Check if two strings match, ignoring accents: their accent-insensitive
/// normal forms are equal.
pub fn strings_match_ignoring_accents(s1: &str, s2: &str) -> (r: bool)
    ensures
        r == (accentless_form(s1@) == accentless_form(s2@)),
{
    let a = accentless_of(s1);
    let b = accentless_of(s2);
    str_eq(a.as_str(), b.as_str())
}

/// Computes the accent-insensitive normal form.
fn accentless_of(s: &str) -> (r: String)
    ensures
        r@ == accentless_form(s@),
{
    let decomposed = nfd_str(s);
    let n = decomposed.as_str().unicode_len();
    let mut kept: Vec<char> = Vec::new();
    let mut i: usize = 0;
    proof {
        assert(decomposed@.take(0) =~= Seq::<char>::empty());
    }
    while i < n
        invariant
            n == decomposed@.len(),
            i <= n,
            decomposed@ == nfd_of(s@),
            kept@ =~= strip_marks(decomposed@.take(i as int)),
        decreases n - i,
    {
        proof {
            lemma_strip_marks_step(decomposed@, i as int);
        }
        let c = decomposed.as_str().get_char(i);
        let code = c as u32;
        if !(0x0300 <= code && code <= 0x036F) {
            kept.push(c);
        }
        i = i + 1;
    }
    proof {
        assert(decomposed@.take(n as int) =~= decomposed@);
    }
    let collected = crate::textnorm::chars_to_string(&kept);
    let lowered = lowercase(collected.as_str());
    let trimmed = str_trim(lowered.as_str());
    trimmed.to_owned()
}

/// Check if two strings match exactly, up to case and surrounding
/// whitespace.
pub fn strings_match_exact(s1: &str, s2: &str) -> (r: bool)
    ensures
        r == (lower_of(trim_spec(s1@)) == lower_of(trim_spec(s2@))),
{
    let t1 = str_trim(s1);
    let l1 = lowercase(t1);
    let t2 = str_trim(s2);
    let l2 = lowercase(t2);
    str_eq(l1.as_str(), l2.as_str())
}

} // verus!
