//! Lessons, their builder, and their reference material.

use vstd::prelude::*;

use crate::models::language::LanguagePair;
use crate::models::level::CEFRLevel;
use crate::models::question::Question;

verus! {

/// A complete lesson with questions and metadata.
#[derive(Debug, Clone, PartialEq)]
pub struct Lesson {
    /// Unique identifier for this lesson.
    pub id: String,
    /// Display title of the lesson.
    pub title: String,
    /// Short description of what this lesson covers.
    pub description: Option<String>,
    /// CEFR level of this lesson.
    pub level: CEFRLevel,
    /// Language pair (source -> target).
    pub language_pair: LanguagePair,
    /// XP reward for completing this lesson.
    pub xp_reward: u32,
    /// The questions in this lesson.
    pub questions: Vec<Question>,
    /// Optional cheat sheet with grammar/vocabulary reference.
    pub cheat_sheet: Option<CheatSheet>,
    /// Order within the level (for sorting).
    pub order: u32,
    /// Icon name for display.
    pub icon: Option<String>,
}

impl Lesson {
    /// Create a new lesson builder.
    pub fn builder(id: String, title: String) -> (r: LessonBuilder)
        ensures
            r.id == id,
            r.title == title,
            r.description is None,
            r.level == CEFRLevel::A1,
            r.language_pair is None,
            r.xp_reward == 10,
            r.questions@ =~= Seq::<Question>::empty(),
            r.cheat_sheet is None,
            r.order == 0,
            r.icon is None,
    {
        LessonBuilder::new(id, title)
    }

    /// Get the number of questions in this lesson.
    pub fn question_count(&self) -> (r: usize)
        ensures
            r == self.questions@.len(),
    {
        self.questions.len()
    }

    /// Check if this lesson has a cheat sheet.
    pub fn has_cheat_sheet(&self) -> (r: bool)
        ensures
            r == (self.cheat_sheet is Some),
    {
        self.cheat_sheet.is_some()
    }
}

/// Builder for creating lessons.
#[derive(Debug)]
pub struct LessonBuilder {
    pub id: String,
    pub title: String,
    pub description: Option<String>,
    pub level: CEFRLevel,
    pub language_pair: Option<LanguagePair>,
    pub xp_reward: u32,
    pub questions: Vec<Question>,
    pub cheat_sheet: Option<CheatSheet>,
    pub order: u32,
    pub icon: Option<String>,
}

impl LessonBuilder {
    pub fn new(id: String, title: String) -> (r: Self)
        ensures
            r.id == id,
            r.title == title,
            r.description is None,
            r.level == CEFRLevel::A1,
            r.language_pair is None,
            r.xp_reward == 10,
            r.questions@ =~= Seq::<Question>::empty(),
            r.cheat_sheet is None,
            r.order == 0,
            r.icon is None,
    {
        let r = Self {
            id,
            title,
            description: None,
            level: CEFRLevel::A1,
            language_pair: None,
            xp_reward: 10,
            questions: Vec::new(),
            cheat_sheet: None,
            order: 0,
            icon: None,
        };
        r
    }

    pub fn description(self, desc: String) -> (r: Self)
        ensures
            r == (Self { description: Some(desc), ..self }),
    {
        Self { description: Some(desc), ..self }
    }

    pub fn level(self, level: CEFRLevel) -> (r: Self)
        ensures
            r == (Self { level, ..self }),
    {
        Self { level, ..self }
    }

    pub fn language_pair(self, pair: LanguagePair) -> (r: Self)
        ensures
            r == (Self { language_pair: Some(pair), ..self }),
    {
        Self { language_pair: Some(pair), ..self }
    }

    pub fn xp_reward(self, xp: u32) -> (r: Self)
        ensures
            r == (Self { xp_reward: xp, ..self }),
    {
        Self { xp_reward: xp, ..self }
    }

    pub fn questions(self, questions: Vec<Question>) -> (r: Self)
        ensures
            r == (Self { questions, ..self }),
    {
        Self { questions, ..self }
    }

    pub fn add_question(self, question: Question) -> (r: Self)
        ensures
            r.questions@ == self.questions@.push(question),
            r.id == self.id,
            r.title == self.title,
            r.description == self.description,
            r.level == self.level,
            r.language_pair == self.language_pair,
            r.xp_reward == self.xp_reward,
            r.cheat_sheet == self.cheat_sheet,
            r.order == self.order,
            r.icon == self.icon,
    {
        let mut s = self;
        s.questions.push(question);
        s
    }

    pub fn cheat_sheet(self, sheet: CheatSheet) -> (r: Self)
        ensures
            r == (Self { cheat_sheet: Some(sheet), ..self }),
    {
        Self { cheat_sheet: Some(sheet), ..self }
    }

    pub fn order(self, order: u32) -> (r: Self)
        ensures
            r == (Self { order, ..self }),
    {
        Self { order, ..self }
    }

    pub fn icon(self, icon: String) -> (r: Self)
        ensures
            r == (Self { icon: Some(icon), ..self }),
    {
        Self { icon: Some(icon), ..self }
    }

    /// Finishes the builder.  Succeeds exactly when a language pair was set
    /// and at least one question was added.
    pub fn build(self) -> (r: Result<Lesson, &'static str>)
        ensures
            (match r {
                Ok(l) => {
                    &&& self.language_pair is Some
                    &&& self.questions@.len() > 0
                    &&& l.id == self.id
                    &&& l.title == self.title
                    &&& l.description == self.description
                    &&& l.level == self.level
                    &&& Some(l.language_pair) == self.language_pair
                    &&& l.xp_reward == self.xp_reward
                    &&& l.questions == self.questions
                    &&& l.cheat_sheet == self.cheat_sheet
                    &&& l.order == self.order
                    &&& l.icon == self.icon
                },
                Err(e) => {
                    &&& (self.language_pair is None || self.questions@.len() == 0)
                    &&& (self.language_pair is None ==> e@ == "Language pair is required"@)
                    &&& (self.language_pair is Some ==> e@ == "At least one question is required"@)
                },
            }),
    {
        let language_pair = match self.language_pair {
            Some(p) => p,
            None => {
                return Err("Language pair is required");
            },
        };
        if self.questions.len() == 0 {
            return Err("At least one question is required");
        }
        Ok(
            Lesson {
                id: self.id,
                title: self.title,
                description: self.description,
                level: self.level,
                language_pair,
                xp_reward: self.xp_reward,
                questions: self.questions,
                cheat_sheet: self.cheat_sheet,
                order: self.order,
                icon: self.icon,
            },
        )
    }
}

/// Reference material shown alongside a lesson.
#[derive(Debug, Clone, PartialEq)]
pub struct CheatSheet {
    /// Title of the cheat sheet.
    pub title: String,
    /// Sections containing the reference content.
    pub sections: Vec<CheatSheetSection>,
}

/// A section within a cheat sheet.
#[derive(Debug, Clone, PartialEq)]
pub struct CheatSheetSection {
    /// Section heading.
    pub heading: String,
    /// Content items (text, examples, etc.).
    pub content: Vec<CheatSheetContent>,
}

/// Content within a cheat sheet section.
#[derive(Debug, Clone, PartialEq)]
pub enum CheatSheetContent {
    /// Plain text explanation.
    Text { text: String },
    /// Example with source and target language.
    Example { source: String, target: String, note: Option<String> },
    /// A tip or hint.
    Tip { text: String },
    /// A warning about common mistakes.
    Warning { text: String },
    /// A vocabulary list.
    Vocabulary { items: Vec<(String, String)> },
}

/// Metadata about a lesson (without the full content).
#[derive(Debug, Clone, PartialEq)]
pub struct LessonMetadata {
    pub id: String,
    pub title: String,
    pub description: Option<String>,
    pub level: CEFRLevel,
    pub xp_reward: u32,
    pub question_count: usize,
    pub has_cheat_sheet: bool,
    pub order: u32,
    pub icon: Option<String>,
}

impl LessonMetadata {
    /// The metadata that summarizes a lesson.
    pub open spec fn of_lesson(lesson: Lesson) -> LessonMetadata {
        LessonMetadata {
            id: lesson.id,
            title: lesson.title,
            description: lesson.description,
            level: lesson.level,
            xp_reward: lesson.xp_reward,
            question_count: lesson.questions@.len() as usize,
            has_cheat_sheet: lesson.cheat_sheet is Some,
            order: lesson.order,
            icon: lesson.icon,
        }
    }

    /// Summarize a lesson.
    pub fn from(lesson: &Lesson) -> (r: Self)
        ensures
            r == Self::of_lesson(*lesson),
    {
        Self {
            id: lesson.id.clone(),
            title: lesson.title.clone(),
            description: clone_opt_string(&lesson.description),
            level: lesson.level,
            xp_reward: lesson.xp_reward,
            question_count: lesson.questions.len(),
            has_cheat_sheet: lesson.cheat_sheet.is_some(),
            order: lesson.order,
            icon: clone_opt_string(&lesson.icon),
        }
    }
}

/// Clones an optional string, value for value.
pub fn clone_opt_string(s: &Option<String>) -> (r: Option<String>)
    ensures
        r == *s,
{
    match s {
        Some(x) => Some(x.clone()),
        None => None,
    }
}

} // verus!
