//! CEFR (Common European Framework of Reference) language proficiency levels.

use vstd::prelude::*;

use crate::textnorm::{upper_of, uppercase};
use crate::util::str_eq;

verus! {

/// CEFR proficiency levels, from beginner (A1) to mastery (C2).
#[derive(Debug, Clone, Copy, PartialEq, Eq, Structural, PartialOrd, Ord, Hash)]
pub enum CEFRLevel {
    /// Beginner - Can understand and use familiar everyday expressions
    A1,
    /// Elementary - Can communicate in simple and routine tasks
    A2,
    /// Intermediate - Can deal with most situations while traveling
    B1,
    /// Upper Intermediate - Can interact with fluency and spontaneity
    B2,
    /// Advanced - Can express ideas fluently and spontaneously
    C1,
    /// Mastery - Can understand virtually everything heard or read
    C2,
}

impl CEFRLevel {
    /// The position of this level in the A1..C2 ladder.
    pub open spec fn ord(self) -> int {
        match self {
            CEFRLevel::A1 => 0,
            CEFRLevel::A2 => 1,
            CEFRLevel::B1 => 2,
            CEFRLevel::B2 => 3,
            CEFRLevel::C1 => 4,
            CEFRLevel::C2 => 5,
        }
    }

    /// Get the display name for this level.
    pub fn display_name(&self) -> (r: &'static str)
        ensures
            (match self {
                CEFRLevel::A1 => r@ == "A1 - Beginner"@,
                CEFRLevel::A2 => r@ == "A2 - Elementary"@,
                CEFRLevel::B1 => r@ == "B1 - Intermediate"@,
                CEFRLevel::B2 => r@ == "B2 - Upper Intermediate"@,
                CEFRLevel::C1 => r@ == "C1 - Advanced"@,
                CEFRLevel::C2 => r@ == "C2 - Mastery"@,
            }),
    {
        match self {
            CEFRLevel::A1 => "A1 - Beginner",
            CEFRLevel::A2 => "A2 - Elementary",
            CEFRLevel::B1 => "B1 - Intermediate",
            CEFRLevel::B2 => "B2 - Upper Intermediate",
            CEFRLevel::C1 => "C1 - Advanced",
            CEFRLevel::C2 => "C2 - Mastery",
        }
    }

    /// Get short name (just the level code).
    pub fn short_name(&self) -> (r: &'static str)
        ensures
            (match self {
                CEFRLevel::A1 => r@ == "A1"@,
                CEFRLevel::A2 => r@ == "A2"@,
                CEFRLevel::B1 => r@ == "B1"@,
                CEFRLevel::B2 => r@ == "B2"@,
                CEFRLevel::C1 => r@ == "C1"@,
                CEFRLevel::C2 => r@ == "C2"@,
            }),
    {
        match self {
            CEFRLevel::A1 => "A1",
            CEFRLevel::A2 => "A2",
            CEFRLevel::B1 => "B1",
            CEFRLevel::B2 => "B2",
            CEFRLevel::C1 => "C1",
            CEFRLevel::C2 => "C2",
        }
    }

    /// Get a description of what this level means.
    pub fn description(&self) -> (r: &'static str)
        ensures
            (match self {
                CEFRLevel::A1 => r@
                    == "Can understand and use familiar everyday expressions and very basic phrases."@,
                CEFRLevel::A2 => r@
                    == "Can communicate in simple and routine tasks requiring direct exchange of information."@,
                CEFRLevel::B1 => r@
                    == "Can deal with most situations likely to arise while traveling in the target language area."@,
                CEFRLevel::B2 => r@
                    == "Can interact with a degree of fluency and spontaneity with native speakers."@,
                CEFRLevel::C1 => r@
                    == "Can express ideas fluently and spontaneously without obvious searching for expressions."@,
                CEFRLevel::C2 => r@ == "Can understand with ease virtually everything heard or read."@,
            }),
    {
        match self {
            CEFRLevel::A1 => "Can understand and use familiar everyday expressions and very basic phrases.",
            CEFRLevel::A2 => "Can communicate in simple and routine tasks requiring direct exchange of information.",
            CEFRLevel::B1 => "Can deal with most situations likely to arise while traveling in the target language area.",
            CEFRLevel::B2 => "Can interact with a degree of fluency and spontaneity with native speakers.",
            CEFRLevel::C1 => "Can express ideas fluently and spontaneously without obvious searching for expressions.",
            CEFRLevel::C2 => "Can understand with ease virtually everything heard or read.",
        }
    }

    /// Get the directory name for content storage.
    pub fn content_dir(&self) -> (r: &'static str)
        ensures
            (match self {
                CEFRLevel::A1 => r@ == "a1"@,
                CEFRLevel::A2 => r@ == "a2"@,
                CEFRLevel::B1 => r@ == "b1"@,
                CEFRLevel::B2 => r@ == "b2"@,
                CEFRLevel::C1 => r@ == "c1"@,
                CEFRLevel::C2 => r@ == "c2"@,
            }),
    {
        match self {
            CEFRLevel::A1 => "a1",
            CEFRLevel::A2 => "a2",
            CEFRLevel::B1 => "b1",
            CEFRLevel::B2 => "b2",
            CEFRLevel::C1 => "c1",
            CEFRLevel::C2 => "c2",
        }
    }

    /// Get a color associated with this level (as hex string).
    pub fn color(&self) -> (r: &'static str)
        ensures
            (match self {
                CEFRLevel::A1 => r@ == "#4CAF50"@,
                CEFRLevel::A2 => r@ == "#8BC34A"@,
                CEFRLevel::B1 => r@ == "#FFC107"@,
                CEFRLevel::B2 => r@ == "#FF9800"@,
                CEFRLevel::C1 => r@ == "#F44336"@,
                CEFRLevel::C2 => r@ == "#9C27B0"@,
            }),
    {
        match self {
            CEFRLevel::A1 => "#4CAF50",
            CEFRLevel::A2 => "#8BC34A",
            CEFRLevel::B1 => "#FFC107",
            CEFRLevel::B2 => "#FF9800",
            CEFRLevel::C1 => "#F44336",
            CEFRLevel::C2 => "#9C27B0",
        }
    }

    /// Get all levels in order.
    pub fn all() -> (r: Vec<CEFRLevel>)
        ensures
            r@ =~= seq![
                CEFRLevel::A1,
                CEFRLevel::A2,
                CEFRLevel::B1,
                CEFRLevel::B2,
                CEFRLevel::C1,
                CEFRLevel::C2,
            ],
    {
        let mut v: Vec<CEFRLevel> = Vec::new();
        v.push(CEFRLevel::A1);
        v.push(CEFRLevel::A2);
        v.push(CEFRLevel::B1);
        v.push(CEFRLevel::B2);
        v.push(CEFRLevel::C1);
        v.push(CEFRLevel::C2);
        v
    }

    /// Get the next level (returns None if already at C2).
    pub fn next(&self) -> (r: Option<CEFRLevel>)
        ensures
            (match self {
                CEFRLevel::A1 => r == Some(CEFRLevel::A2),
                CEFRLevel::A2 => r == Some(CEFRLevel::B1),
                CEFRLevel::B1 => r == Some(CEFRLevel::B2),
                CEFRLevel::B2 => r == Some(CEFRLevel::C1),
                CEFRLevel::C1 => r == Some(CEFRLevel::C2),
                CEFRLevel::C2 => r is None,
            }),
    {
        match self {
            CEFRLevel::A1 => Some(CEFRLevel::A2),
            CEFRLevel::A2 => Some(CEFRLevel::B1),
            CEFRLevel::B1 => Some(CEFRLevel::B2),
            CEFRLevel::B2 => Some(CEFRLevel::C1),
            CEFRLevel::C1 => Some(CEFRLevel::C2),
            CEFRLevel::C2 => None,
        }
    }

    /// Get the previous level (returns None if already at A1).
    pub fn previous(&self) -> (r: Option<CEFRLevel>)
        ensures
            (match self {
                CEFRLevel::A1 => r is None,
                CEFRLevel::A2 => r == Some(CEFRLevel::A1),
                CEFRLevel::B1 => r == Some(CEFRLevel::A2),
                CEFRLevel::B2 => r == Some(CEFRLevel::B1),
                CEFRLevel::C1 => r == Some(CEFRLevel::B2),
                CEFRLevel::C2 => r == Some(CEFRLevel::C1),
            }),
    {
        match self {
            CEFRLevel::A1 => None,
            CEFRLevel::A2 => Some(CEFRLevel::A1),
            CEFRLevel::B1 => Some(CEFRLevel::A2),
            CEFRLevel::B2 => Some(CEFRLevel::B1),
            CEFRLevel::C1 => Some(CEFRLevel::B2),
            CEFRLevel::C2 => Some(CEFRLevel::C1),
        }
    }

    /// The level whose code matches `s` after uppercasing, if any.
    pub open spec fn parse_spec(s: Seq<char>) -> Option<CEFRLevel> {
        if upper_of(s) == "A1"@ {
            Some(CEFRLevel::A1)
        } else if upper_of(s) == "A2"@ {
            Some(CEFRLevel::A2)
        } else if upper_of(s) == "B1"@ {
            Some(CEFRLevel::B1)
        } else if upper_of(s) == "B2"@ {
            Some(CEFRLevel::B2)
        } else if upper_of(s) == "C1"@ {
            Some(CEFRLevel::C1)
        } else if upper_of(s) == "C2"@ {
            Some(CEFRLevel::C2)
        } else {
            None
        }
    }

    /// Parse from string (case-insensitive).
    pub fn parse(s: &str) -> (r: Option<CEFRLevel>)
        ensures
            r == Self::parse_spec(s@),
    {
        let up = uppercase(s);
        if str_eq(up.as_str(), "A1") {
            Some(CEFRLevel::A1)
        } else if str_eq(up.as_str(), "A2") {
            Some(CEFRLevel::A2)
        } else if str_eq(up.as_str(), "B1") {
            Some(CEFRLevel::B1)
        } else if str_eq(up.as_str(), "B2") {
            Some(CEFRLevel::B2)
        } else if str_eq(up.as_str(), "C1") {
            Some(CEFRLevel::C1)
        } else if str_eq(up.as_str(), "C2") {
            Some(CEFRLevel::C2)
        } else {
            None
        }
    }
}

} // verus!
