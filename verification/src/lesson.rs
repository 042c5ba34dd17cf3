//! CEFR-aligned lesson structure: levels, sub-levels, cheat sheets, units,
//! and lessons.

use vstd::prelude::*;

use crate::dialect::Dialect;
use crate::question::Question;
use crate::util::{dec_rec, push_dec};

verus! {

/// CEFR proficiency levels.
#[derive(Debug, Clone, Copy, PartialEq, Eq, Structural, PartialOrd, Ord, Hash)]
pub enum CEFRLevel {
    /// Beginner - Can understand and use familiar everyday expressions.
    A1,
    /// Elementary - Can communicate in simple and routine tasks.
    A2,
    /// Intermediate - Can deal with most situations while traveling.
    B1,
    /// Upper Intermediate - Can interact with fluency and spontaneity.
    B2,
    /// Advanced - Can express ideas fluently and spontaneously.
    C1,
    /// Proficient - Can understand virtually everything heard or read.
    C2,
}

impl CEFRLevel {
    /// The short code of this level, as a character sequence.
    pub open spec fn spec_code(self) -> Seq<char> {
        match self {
            CEFRLevel::A1 => "A1"@,
            CEFRLevel::A2 => "A2"@,
            CEFRLevel::B1 => "B1"@,
            CEFRLevel::B2 => "B2"@,
            CEFRLevel::C1 => "C1"@,
            CEFRLevel::C2 => "C2"@,
        }
    }

    /// Returns the display name of the CEFR level.
    pub fn display_name(&self) -> (r: &'static str)
        ensures
            (match self {
                CEFRLevel::A1 => r@ == "A1 - Beginner"@,
                CEFRLevel::A2 => r@ == "A2 - Elementary"@,
                CEFRLevel::B1 => r@ == "B1 - Intermediate"@,
                CEFRLevel::B2 => r@ == "B2 - Upper Intermediate"@,
                CEFRLevel::C1 => r@ == "C1 - Advanced"@,
                CEFRLevel::C2 => r@ == "C2 - Proficient"@,
            }),
    {
        match self {
            CEFRLevel::A1 => "A1 - Beginner",
            CEFRLevel::A2 => "A2 - Elementary",
            CEFRLevel::B1 => "B1 - Intermediate",
            CEFRLevel::B2 => "B2 - Upper Intermediate",
            CEFRLevel::C1 => "C1 - Advanced",
            CEFRLevel::C2 => "C2 - Proficient",
        }
    }

    /// Returns a description of what the learner can do at this level.
    pub fn description(&self) -> (r: &'static str)
        ensures
            r@.len() > 0,
    {
        proof {
            reveal_strlit(
                "Can understand and use familiar everyday expressions and very basic phrases aimed at the satisfaction of needs of a concrete type.",
            );
            reveal_strlit(
                "Can understand sentences and frequently used expressions related to areas of most immediate relevance.",
            );
            reveal_strlit(
                "Can understand the main points of clear standard input on familiar matters regularly encountered in work, school, leisure, etc.",
            );
            reveal_strlit(
                "Can understand the main ideas of complex text on both concrete and abstract topics, including technical discussions in their field of specialization.",
            );
            reveal_strlit(
                "Can understand a wide range of demanding, longer texts, and recognise implicit meaning.",
            );
            reveal_strlit("Can understand with ease virtually everything heard or read.");
        }
        match self {
            CEFRLevel::A1 => "Can understand and use familiar everyday expressions and very basic phrases aimed at the satisfaction of needs of a concrete type.",
            CEFRLevel::A2 => "Can understand sentences and frequently used expressions related to areas of most immediate relevance.",
            CEFRLevel::B1 => "Can understand the main points of clear standard input on familiar matters regularly encountered in work, school, leisure, etc.",
            CEFRLevel::B2 => "Can understand the main ideas of complex text on both concrete and abstract topics, including technical discussions in their field of specialization.",
            CEFRLevel::C1 => "Can understand a wide range of demanding, longer texts, and recognise implicit meaning.",
            CEFRLevel::C2 => "Can understand with ease virtually everything heard or read.",
        }
    }

    /// Returns all CEFR levels in order.
    pub fn all() -> (r: Vec<CEFRLevel>)
        ensures
            r@ =~= seq![
                CEFRLevel::A1,
                CEFRLevel::A2,
                CEFRLevel::B1,
                CEFRLevel::B2,
                CEFRLevel::C1,
                CEFRLevel::C2,
            ],
    {
        let mut v: Vec<CEFRLevel> = Vec::new();
        v.push(CEFRLevel::A1);
        v.push(CEFRLevel::A2);
        v.push(CEFRLevel::B1);
        v.push(CEFRLevel::B2);
        v.push(CEFRLevel::C1);
        v.push(CEFRLevel::C2);
        v
    }

    /// Returns the next CEFR level, if any.
    pub fn next(&self) -> (r: Option<CEFRLevel>)
        ensures
            (match self {
                CEFRLevel::A1 => r == Some(CEFRLevel::A2),
                CEFRLevel::A2 => r == Some(CEFRLevel::B1),
                CEFRLevel::B1 => r == Some(CEFRLevel::B2),
                CEFRLevel::B2 => r == Some(CEFRLevel::C1),
                CEFRLevel::C1 => r == Some(CEFRLevel::C2),
                CEFRLevel::C2 => r is None,
            }),
    {
        match self {
            CEFRLevel::A1 => Some(CEFRLevel::A2),
            CEFRLevel::A2 => Some(CEFRLevel::B1),
            CEFRLevel::B1 => Some(CEFRLevel::B2),
            CEFRLevel::B2 => Some(CEFRLevel::C1),
            CEFRLevel::C1 => Some(CEFRLevel::C2),
            CEFRLevel::C2 => None,
        }
    }

    /// Returns the previous CEFR level, if any.
    pub fn previous(&self) -> (r: Option<CEFRLevel>)
        ensures
            (match self {
                CEFRLevel::A1 => r is None,
                CEFRLevel::A2 => r == Some(CEFRLevel::A1),
                CEFRLevel::B1 => r == Some(CEFRLevel::A2),
                CEFRLevel::B2 => r == Some(CEFRLevel::B1),
                CEFRLevel::C1 => r == Some(CEFRLevel::B2),
                CEFRLevel::C2 => r == Some(CEFRLevel::C1),
            }),
    {
        match self {
            CEFRLevel::A1 => None,
            CEFRLevel::A2 => Some(CEFRLevel::A1),
            CEFRLevel::B1 => Some(CEFRLevel::A2),
            CEFRLevel::B2 => Some(CEFRLevel::B1),
            CEFRLevel::C1 => Some(CEFRLevel::B2),
            CEFRLevel::C2 => Some(CEFRLevel::C1),
        }
    }

    /// The short code of this level.
    pub fn short_code(&self) -> (r: &'static str)
        ensures
            r@ == self.spec_code(),
    {
        match self {
            CEFRLevel::A1 => "A1",
            CEFRLevel::A2 => "A2",
            CEFRLevel::B1 => "B1",
            CEFRLevel::B2 => "B2",
            CEFRLevel::C1 => "C1",
            CEFRLevel::C2 => "C2",
        }
    }
}

/// A specific sub-level within a CEFR level (e.g., A1.1, A1.2).
#[derive(Debug, Clone, PartialEq)]
pub struct Level {
    /// The base CEFR level.
    pub cefr: CEFRLevel,
    /// The sub-level (1, 2, etc.).
    pub sub_level: u8,
    /// The title of this level.
    pub title: String,
    /// What the learner will be able to do after completing this level.
    pub learning_objectives: Vec<String>,
}

impl Level {
    /// Create a new level.
    pub fn new(cefr: CEFRLevel, sub_level: u8, title: String, learning_objectives: Vec<String>)
        -> (r: Self)
        ensures
            r.cefr == cefr,
            r.sub_level == sub_level,
            r.title == title,
            r.learning_objectives == learning_objectives,
    {
        Self { cefr, sub_level, title, learning_objectives }
    }

    /// Returns the full level code (e.g., "A1.1").
    pub fn code(&self) -> (r: String)
        ensures
            r@ == self.cefr.spec_code() + "."@ + dec_rec(self.sub_level as nat),
    {
        let mut s = String::new();
        s.append(self.cefr.short_code());
        s.append(".");
        push_dec(&mut s, self.sub_level as u64);
        s
    }

    /// Returns the display name with title.
    pub fn display_name(&self) -> (r: String)
        ensures
            r@ == self.cefr.spec_code() + "."@ + dec_rec(self.sub_level as nat) + " - "@
                + self.title@,
    {
        let mut s = self.code();
        s.append(" - ");
        s.append(self.title.as_str());
        s
    }
}

/// A grammar explanation or "cheat sheet" for a lesson.
#[derive(Debug, Clone, PartialEq)]
pub struct CheatSheet {
    /// Title of the grammar concept.
    pub title: String,
    /// Explanation of the grammar rule.
    pub explanation: String,
    /// Examples with translations.
    pub examples: Vec<CheatSheetExample>,
    /// Common mistakes to avoid.
    pub common_mistakes: Vec<String>,
    /// Tips for remembering this concept.
    pub tips: Vec<String>,
}

/// An example in a cheat sheet.
#[derive(Debug, Clone, PartialEq)]
pub struct CheatSheetExample {
    /// The Portuguese text.
    pub portuguese: String,
    /// The English translation.
    pub english: String,
    /// Optional breakdown of the grammar.
    pub breakdown: Option<String>,
}

impl CheatSheetExample {
    /// Create a new example.
    pub fn new(portuguese: String, english: String) -> (r: Self)
        ensures
            r.portuguese == portuguese,
            r.english == english,
            r.breakdown is None,
    {
        Self { portuguese, english, breakdown: None }
    }

    /// Create an example with a grammatical breakdown.
    pub fn with_breakdown(portuguese: String, english: String, breakdown: String) -> (r: Self)
        ensures
            r.portuguese == portuguese,
            r.english == english,
            r.breakdown == Some(breakdown),
    {
        Self { portuguese, english, breakdown: Some(breakdown) }
    }
}

impl CheatSheet {
    /// Create a new cheat sheet.
    pub fn new(title: String, explanation: String) -> (r: Self)
        ensures
            r.title == title,
            r.explanation == explanation,
            r.examples@ =~= Seq::<CheatSheetExample>::empty(),
            r.common_mistakes@ =~= Seq::<String>::empty(),
            r.tips@ =~= Seq::<String>::empty(),
    {
        Self {
            title,
            explanation,
            examples: Vec::new(),
            common_mistakes: Vec::new(),
            tips: Vec::new(),
        }
    }

    /// Add an example to the cheat sheet.
    pub fn with_example(self, example: CheatSheetExample) -> (r: Self)
        ensures
            r.examples@ == self.examples@.push(example),
            r.title == self.title,
            r.explanation == self.explanation,
            r.common_mistakes == self.common_mistakes,
            r.tips == self.tips,
    {
        let mut s = self;
        s.examples.push(example);
        s
    }

    /// Add a common mistake to avoid.
    pub fn with_mistake(self, mistake: String) -> (r: Self)
        ensures
            r.common_mistakes@ == self.common_mistakes@.push(mistake),
            r.title == self.title,
            r.explanation == self.explanation,
            r.examples == self.examples,
            r.tips == self.tips,
    {
        let mut s = self;
        s.common_mistakes.push(mistake);
        s
    }

    /// Add a tip for remembering.
    pub fn with_tip(self, tip: String) -> (r: Self)
        ensures
            r.tips@ == self.tips@.push(tip),
            r.title == self.title,
            r.explanation == self.explanation,
            r.examples == self.examples,
            r.common_mistakes == self.common_mistakes,
    {
        let mut s = self;
        s.tips.push(tip);
        s
    }
}

/// A unit within a lesson containing related content.
#[derive(Debug, Clone, PartialEq)]
pub struct LessonUnit {
    /// Unique identifier for this unit.
    pub id: String,
    /// Title of the unit.
    pub title: String,
    /// Description of what this unit covers.
    pub description: String,
    /// The dialect this unit is for.
    pub dialect: Dialect,
    /// Grammar cheat sheets for this unit.
    pub cheat_sheets: Vec<CheatSheet>,
    /// Questions in this unit.
    pub questions: Vec<Question>,
    /// Vocabulary words introduced in this unit.
    pub vocabulary: Vec<String>,
}

impl LessonUnit {
    /// Create a new lesson unit.
    pub fn new(id: String, title: String, description: String, dialect: Dialect) -> (r: Self)
        ensures
            r.id == id,
            r.title == title,
            r.description == description,
            r.dialect == dialect,
            r.cheat_sheets@ =~= Seq::<CheatSheet>::empty(),
            r.questions@ =~= Seq::<Question>::empty(),
            r.vocabulary@ =~= Seq::<String>::empty(),
    {
        Self {
            id,
            title,
            description,
            dialect,
            cheat_sheets: Vec::new(),
            questions: Vec::new(),
            vocabulary: Vec::new(),
        }
    }

    /// Add a cheat sheet to this unit.
    pub fn with_cheat_sheet(self, cheat_sheet: CheatSheet) -> (r: Self)
        ensures
            r.cheat_sheets@ == self.cheat_sheets@.push(cheat_sheet),
            r.id == self.id,
            r.title == self.title,
            r.description == self.description,
            r.dialect == self.dialect,
            r.questions == self.questions,
            r.vocabulary == self.vocabulary,
    {
        let mut s = self;
        s.cheat_sheets.push(cheat_sheet);
        s
    }

    /// Add a question to this unit.
    pub fn with_question(self, question: Question) -> (r: Self)
        ensures
            r.questions@ == self.questions@.push(question),
            r.id == self.id,
            r.title == self.title,
            r.description == self.description,
            r.dialect == self.dialect,
            r.cheat_sheets == self.cheat_sheets,
            r.vocabulary == self.vocabulary,
    {
        let mut s = self;
        s.questions.push(question);
        s
    }

    /// Add vocabulary words to this unit.
    pub fn with_vocabulary(self, words: Vec<String>) -> (r: Self)
        ensures
            r.vocabulary@ == self.vocabulary@ + words@,
            r.id == self.id,
            r.title == self.title,
            r.description == self.description,
            r.dialect == self.dialect,
            r.cheat_sheets == self.cheat_sheets,
            r.questions == self.questions,
    {
        let mut s = self;
        let mut w = words;
        s.vocabulary.append(&mut w);
        s
    }
}

/// A complete lesson with multiple units.
#[derive(Debug, Clone, PartialEq)]
pub struct Lesson {
    /// Unique identifier for this lesson.
    pub id: String,
    /// The level this lesson belongs to.
    pub level: Level,
    /// Title of the lesson.
    pub title: String,
    /// Description of the lesson.
    pub description: String,
    /// The dialect this lesson is for.
    pub dialect: Dialect,
    /// Units in this lesson.
    pub units: Vec<LessonUnit>,
    /// Whether this lesson allows skipping by proving competency.
    pub allows_challenge_out: bool,
}

/// The number of questions in a sequence of units.
pub open spec fn units_question_count(units: Seq<LessonUnit>) -> int
    decreases units.len(),
{
    if units.len() == 0 {
        0
    } else {
        units_question_count(units.drop_last()) + units.last().questions@.len()
    }
}

impl Lesson {
    /// Create a new lesson.
    pub fn new(id: String, level: Level, title: String, description: String, dialect: Dialect)
        -> (r: Self)
        ensures
            r.id == id,
            r.level == level,
            r.title == title,
            r.description == description,
            r.dialect == dialect,
            r.units@ =~= Seq::<LessonUnit>::empty(),
            r.allows_challenge_out,
    {
        Self { id, level, title, description, dialect, units: Vec::new(), allows_challenge_out: true }
    }

    /// Add a unit to this lesson.
    pub fn with_unit(self, unit: LessonUnit) -> (r: Self)
        ensures
            r.units@ == self.units@.push(unit),
            r.id == self.id,
            r.level == self.level,
            r.title == self.title,
            r.description == self.description,
            r.dialect == self.dialect,
            r.allows_challenge_out == self.allows_challenge_out,
    {
        let mut s = self;
        s.units.push(unit);
        s
    }

    /// Set whether this lesson allows challenge out.
    pub fn with_challenge_out(self, allows: bool) -> (r: Self)
        ensures
            r == (Self { allows_challenge_out: allows, ..self }),
    {
        Self { allows_challenge_out: allows, ..self }
    }

    /// Get the total number of questions in this lesson.
    pub fn total_questions(&self) -> (r: usize)
        requires
            units_question_count(self.units@) <= usize::MAX,
        ensures
            r == units_question_count(self.units@),
    {
        let n = self.units.len();
        let mut total: usize = 0;
        let mut i: usize = 0;
        proof {
            assert(self.units@.take(0) =~= Seq::<LessonUnit>::empty());
            lemma_units_count_prefix(self.units@, 0);
        }
        while i < n
            invariant
                n == self.units@.len(),
                i <= n,
                total == units_question_count(self.units@.take(i as int)),
                units_question_count(self.units@) <= usize::MAX,
                units_question_count(self.units@.take(i as int)) <= units_question_count(
                    self.units@,
                ),
            decreases n - i,
        {
            proof {
                assert(self.units@.take(i as int + 1).drop_last() =~= self.units@.take(i as int));
                assert(self.units@.take(i as int + 1).last() == self.units@[i as int]);
                lemma_units_count_prefix(self.units@, i as int + 1);
            }
            total = total + self.units[i].questions.len();
            i = i + 1;
        }
        proof {
            assert(self.units@.take(n as int) =~= self.units@);
        }
        total
    }

    /// Get all questions in this lesson, in unit order.
    pub fn all_questions(&self) -> (r: Vec<&Question>)
        ensures
            r@.len() == units_question_count(self.units@),
    {
        let n = self.units.len();
        let mut r: Vec<&Question> = Vec::new();
        let mut i: usize = 0;
        proof {
            assert(self.units@.take(0) =~= Seq::<LessonUnit>::empty());
        }
        while i < n
            invariant
                n == self.units@.len(),
                i <= n,
                r@.len() == units_question_count(self.units@.take(i as int)),
            decreases n - i,
        {
            proof {
                assert(self.units@.take(i as int + 1).drop_last() =~= self.units@.take(i as int));
                assert(self.units@.take(i as int + 1).last() == self.units@[i as int]);
            }
            let m = self.units[i].questions.len();
            let mut j: usize = 0;
            while j < m
                invariant
                    i < n,
                    n == self.units@.len(),
                    m == self.units@[i as int].questions@.len(),
                    j <= m,
                    r@.len() == units_question_count(self.units@.take(i as int)) + j,
                decreases m - j,
            {
                r.push(&self.units[i].questions[j]);
                j = j + 1;
            }
            i = i + 1;
        }
        proof {
            assert(self.units@.take(n as int) =~= self.units@);
        }
        r
    }
}

/// The question count of a prefix is at most the whole count.
proof fn lemma_units_count_prefix(units: Seq<LessonUnit>, i: int)
    requires
        0 <= i <= units.len(),
    ensures
        units_question_count(units.take(i)) <= units_question_count(units),
        units_question_count(units.take(i)) >= 0,
    decreases units.len() - i,
{
    if i < units.len() {
        lemma_units_count_prefix(units, i + 1);
        assert(units.take(i + 1).drop_last() =~= units.take(i));
        lemma_units_count_nonneg(units.take(i));
    } else {
        assert(units.take(i) =~= units);
        lemma_units_count_nonneg(units);
    }
}

/// Question counts are not negative.
proof fn lemma_units_count_nonneg(units: Seq<LessonUnit>)
    ensures
        units_question_count(units) >= 0,
    decreases units.len(),
{
    if units.len() > 0 {
        lemma_units_count_nonneg(units.drop_last());
    }
}

} // verus!
