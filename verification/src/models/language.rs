//! Languages, dialects, and learning-direction pairs.

use vstd::prelude::*;

verus! {

/// Base language without regional variants.
#[derive(Debug, Clone, Copy, PartialEq, Eq, Structural, Hash)]
pub enum Language {
    English,
    Portuguese,
}

impl Language {
    /// Get the display name for this language.
    pub fn display_name(&self) -> (r: &'static str)
        ensures
            (match self {
                Language::English => r@ == "English"@,
                Language::Portuguese => r@ == "Portuguese"@,
            }),
    {
        match self {
            Language::English => "English",
            Language::Portuguese => "Portuguese",
        }
    }

    /// Get the ISO 639-1 code.
    pub fn iso_code(&self) -> (r: &'static str)
        ensures
            (match self {
                Language::English => r@ == "en"@,
                Language::Portuguese => r@ == "pt"@,
            }),
    {
        match self {
            Language::English => "en",
            Language::Portuguese => "pt",
        }
    }
}

/// Specific dialect/variant of a language.
#[derive(Debug, Clone, Copy, PartialEq, Eq, Structural, Hash)]
pub enum Dialect {
    EnglishUS,
    EnglishUK,
    PortugueseEuropean,
    PortugueseBrazilian,
}

impl Dialect {
    /// Get the base language for this dialect.
    pub fn language(&self) -> (r: Language)
        ensures
            (match self {
                Dialect::EnglishUS | Dialect::EnglishUK => r == Language::English,
                Dialect::PortugueseEuropean | Dialect::PortugueseBrazilian => r
                    == Language::Portuguese,
            }),
    {
        match self {
            Dialect::EnglishUS | Dialect::EnglishUK => Language::English,
            Dialect::PortugueseEuropean | Dialect::PortugueseBrazilian => Language::Portuguese,
        }
    }

    /// Get the display name for this dialect.
    pub fn display_name(&self) -> (r: &'static str)
        ensures
            (match self {
                Dialect::EnglishUS => r@ == "English (US)"@,
                Dialect::EnglishUK => r@ == "English (UK)"@,
                Dialect::PortugueseEuropean => r@ == "European Portuguese"@,
                Dialect::PortugueseBrazilian => r@ == "Brazilian Portuguese"@,
            }),
    {
        match self {
            Dialect::EnglishUS => "English (US)",
            Dialect::EnglishUK => "English (UK)",
            Dialect::PortugueseEuropean => "European Portuguese",
            Dialect::PortugueseBrazilian => "Brazilian Portuguese",
        }
    }

    /// Get the short display name.
    pub fn short_name(&self) -> (r: &'static str)
        ensures
            (match self {
                Dialect::EnglishUS => r@ == "US English"@,
                Dialect::EnglishUK => r@ == "UK English"@,
                Dialect::PortugueseEuropean => r@ == "PT-PT"@,
                Dialect::PortugueseBrazilian => r@ == "PT-BR"@,
            }),
    {
        match self {
            Dialect::EnglishUS => "US English",
            Dialect::EnglishUK => "UK English",
            Dialect::PortugueseEuropean => "PT-PT",
            Dialect::PortugueseBrazilian => "PT-BR",
        }
    }

    /// Get the locale code (e.g., "en_US", "pt_BR").
    pub fn locale_code(&self) -> (r: &'static str)
        ensures
            (match self {
                Dialect::EnglishUS => r@ == "en_US"@,
                Dialect::EnglishUK => r@ == "en_UK"@,
                Dialect::PortugueseEuropean => r@ == "pt_PT"@,
                Dialect::PortugueseBrazilian => r@ == "pt_BR"@,
            }),
    {
        match self {
            Dialect::EnglishUS => "en_US",
            Dialect::EnglishUK => "en_UK",
            Dialect::PortugueseEuropean => "pt_PT",
            Dialect::PortugueseBrazilian => "pt_BR",
        }
    }

    /// The locale code in lower case, as used in content directory names.
    pub fn locale_code_lower(&self) -> (r: &'static str)
        ensures
            (match self {
                Dialect::EnglishUS => r@ == "en_us"@,
                Dialect::EnglishUK => r@ == "en_uk"@,
                Dialect::PortugueseEuropean => r@ == "pt_pt"@,
                Dialect::PortugueseBrazilian => r@ == "pt_br"@,
            }),
    {
        match self {
            Dialect::EnglishUS => "en_us",
            Dialect::EnglishUK => "en_uk",
            Dialect::PortugueseEuropean => "pt_pt",
            Dialect::PortugueseBrazilian => "pt_br",
        }
    }

    /// Get the flag emoji for this dialect.
    pub fn flag_emoji(&self) -> (r: &'static str)
        ensures
            r@.len() > 0,
    {
        proof {
            reveal_strlit("\u{1F1FA}\u{1F1F8}");
            reveal_strlit("\u{1F1EC}\u{1F1E7}");
            reveal_strlit("\u{1F1F5}\u{1F1F9}");
            reveal_strlit("\u{1F1E7}\u{1F1F7}");
        }
        match self {
            Dialect::EnglishUS => "\u{1F1FA}\u{1F1F8}",
            Dialect::EnglishUK => "\u{1F1EC}\u{1F1E7}",
            Dialect::PortugueseEuropean => "\u{1F1F5}\u{1F1F9}",
            Dialect::PortugueseBrazilian => "\u{1F1E7}\u{1F1F7}",
        }
    }

    /// Get all dialects for a given language.
    pub fn dialects_for_language(language: Language) -> (r: Vec<Dialect>)
        ensures
            (match language {
                Language::English => r@ =~= seq![Dialect::EnglishUS, Dialect::EnglishUK],
                Language::Portuguese => r@ =~= seq![
                    Dialect::PortugueseEuropean,
                    Dialect::PortugueseBrazilian,
                ],
            }),
    {
        let mut v: Vec<Dialect> = Vec::new();
        match language {
            Language::English => {
                v.push(Dialect::EnglishUS);
                v.push(Dialect::EnglishUK);
            },
            Language::Portuguese => {
                v.push(Dialect::PortugueseEuropean);
                v.push(Dialect::PortugueseBrazilian);
            },
        }
        v
    }

    /// Get all available dialects.
    pub fn all() -> (r: Vec<Dialect>)
        ensures
            r@ =~= seq![
                Dialect::EnglishUS,
                Dialect::EnglishUK,
                Dialect::PortugueseEuropean,
                Dialect::PortugueseBrazilian,
            ],
    {
        let mut v: Vec<Dialect> = Vec::new();
        v.push(Dialect::EnglishUS);
        v.push(Dialect::EnglishUK);
        v.push(Dialect::PortugueseEuropean);
        v.push(Dialect::PortugueseBrazilian);
        v
    }
}

/// A pair of dialects representing a learning direction (source -> target).
#[derive(Debug, Clone, Copy, PartialEq, Eq, Structural, Hash)]
pub struct LanguagePair {
    /// The language the learner knows (interface language).
    pub source: Dialect,
    /// The language the learner is studying.
    pub target: Dialect,
}

impl LanguagePair {
    /// The content directory name of a pair: source ISO code, "_to_", and
    /// the target locale code in lower case.
    pub open spec fn spec_content_dir(self) -> Seq<char> {
        (match self.source {
            Dialect::EnglishUS | Dialect::EnglishUK => "en"@,
            Dialect::PortugueseEuropean | Dialect::PortugueseBrazilian => "pt"@,
        }) + "_to_"@ + (match self.target {
            Dialect::EnglishUS => "en_us"@,
            Dialect::EnglishUK => "en_uk"@,
            Dialect::PortugueseEuropean => "pt_pt"@,
            Dialect::PortugueseBrazilian => "pt_br"@,
        })
    }

    /// Create a new language pair.
    pub fn new(source: Dialect, target: Dialect) -> (r: Self)
        ensures
            r.source == source,
            r.target == target,
    {
        Self { source, target }
    }

    /// Get the content directory name for this pair (e.g., "en_to_pt_pt").
    pub fn content_dir(&self) -> (r: String)
        ensures
            r@ == self.spec_content_dir(),
    {
        let lang = self.source.language();
        let mut s = String::new();
        s.append(lang.iso_code());
        s.append("_to_");
        s.append(self.target.locale_code_lower());
        s
    }

    /// Get display name (e.g., "English (US) -> European Portuguese").
    pub fn display_name(&self) -> (r: String)
        ensures
            r@ == self.source.spec_display_seq() + " \u{2192} "@ + self.target.spec_display_seq(),
    {
        let mut s = String::new();
        s.append(self.source.display_name());
        s.append(" \u{2192} ");
        s.append(self.target.display_name());
        s
    }

    /// Get all supported language pairs.
    pub fn supported_pairs() -> (r: Vec<LanguagePair>)
        ensures
            r@ =~= seq![
                LanguagePair { source: Dialect::EnglishUS, target: Dialect::PortugueseEuropean },
                LanguagePair { source: Dialect::EnglishUS, target: Dialect::PortugueseBrazilian },
                LanguagePair { source: Dialect::PortugueseEuropean, target: Dialect::EnglishUS },
                LanguagePair { source: Dialect::PortugueseBrazilian, target: Dialect::EnglishUS },
            ],
    {
        let mut v: Vec<LanguagePair> = Vec::new();
        v.push(LanguagePair::new(Dialect::EnglishUS, Dialect::PortugueseEuropean));
        v.push(LanguagePair::new(Dialect::EnglishUS, Dialect::PortugueseBrazilian));
        v.push(LanguagePair::new(Dialect::PortugueseEuropean, Dialect::EnglishUS));
        v.push(LanguagePair::new(Dialect::PortugueseBrazilian, Dialect::EnglishUS));
        v
    }

    /// Whether this pair is one of the supported learning directions.
    pub open spec fn spec_is_supported(self) -> bool {
        ||| self == LanguagePair { source: Dialect::EnglishUS, target: Dialect::PortugueseEuropean }
        ||| self == LanguagePair {
            source: Dialect::EnglishUS,
            target: Dialect::PortugueseBrazilian,
        }
        ||| self == LanguagePair { source: Dialect::PortugueseEuropean, target: Dialect::EnglishUS }
        ||| self == LanguagePair {
            source: Dialect::PortugueseBrazilian,
            target: Dialect::EnglishUS,
        }
    }

    /// Check if this is a supported language pair.
    pub fn is_supported(&self) -> (r: bool)
        ensures
            r == self.spec_is_supported(),
    {
        (self.source == Dialect::EnglishUS && self.target == Dialect::PortugueseEuropean) || (
        self.source == Dialect::EnglishUS && self.target == Dialect::PortugueseBrazilian) || (
        self.source == Dialect::PortugueseEuropean && self.target == Dialect::EnglishUS) || (
        self.source == Dialect::PortugueseBrazilian && self.target == Dialect::EnglishUS)
    }
}

impl Dialect {
    /// The display name of this dialect, as a character sequence.
    pub open spec fn spec_display_seq(self) -> Seq<char> {
        match self {
            Dialect::EnglishUS => "English (US)"@,
            Dialect::EnglishUK => "English (UK)"@,
            Dialect::PortugueseEuropean => "European Portuguese"@,
            Dialect::PortugueseBrazilian => "Brazilian Portuguese"@,
        }
    }
}

} // verus!
