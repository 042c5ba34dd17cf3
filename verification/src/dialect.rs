//! Portuguese dialect variants and their documented differences.

use vstd::prelude::*;

verus! {

/// Portuguese dialect variants.
#[derive(Debug, Clone, Copy, PartialEq, Eq, Structural, Hash)]
pub enum Dialect {
    /// European Portuguese (Portugal).
    European,
    /// Brazilian Portuguese (Brazil).
    Brazilian,
}

impl Dialect {
    /// Returns the display name of the dialect.
    pub fn display_name(&self) -> (r: &'static str)
        ensures
            (match self {
                Dialect::European => r@ == "European Portuguese (PT-PT)"@,
                Dialect::Brazilian => r@ == "Brazilian Portuguese (PT-BR)"@,
            }),
    {
        match self {
            Dialect::European => "European Portuguese (PT-PT)",
            Dialect::Brazilian => "Brazilian Portuguese (PT-BR)",
        }
    }

    /// Returns the short code for the dialect.
    pub fn code(&self) -> (r: &'static str)
        ensures
            (match self {
                Dialect::European => r@ == "pt-pt"@,
                Dialect::Brazilian => r@ == "pt-br"@,
            }),
    {
        match self {
            Dialect::European => "pt-pt",
            Dialect::Brazilian => "pt-br",
        }
    }

    /// Returns the country/region associated with this dialect.
    pub fn region(&self) -> (r: &'static str)
        ensures
            (match self {
                Dialect::European => r@ == "Portugal"@,
                Dialect::Brazilian => r@ == "Brazil"@,
            }),
    {
        match self {
            Dialect::European => "Portugal",
            Dialect::Brazilian => "Brazil",
        }
    }
}

impl Default for Dialect {
    /// The default dialect is European Portuguese.
    fn default() -> (r: Self)
        ensures
            r == Dialect::European,
    {
        Dialect::European
    }
}

/// Represents a key grammatical or vocabulary difference between dialects.
#[derive(Debug, Clone, PartialEq)]
pub struct DialectDifference {
    /// Category of the difference (e.g., "Pronoun Placement").
    pub category: String,
    /// Description of the difference.
    pub description: String,
    /// Example in European Portuguese.
    pub european_example: String,
    /// Example in Brazilian Portuguese.
    pub brazilian_example: String,
    /// English translation.
    pub english_translation: String,
}

impl DialectDifference {
    /// Create a new dialect difference.
    pub fn new(
        category: String,
        description: String,
        european_example: String,
        brazilian_example: String,
        english_translation: String,
    ) -> (r: Self)
        ensures
            r.category == category,
            r.description == description,
            r.european_example == european_example,
            r.brazilian_example == brazilian_example,
            r.english_translation == english_translation,
    {
        Self { category, description, european_example, brazilian_example, english_translation }
    }

    /// Get the example for a specific dialect.
    pub fn example_for(&self, dialect: Dialect) -> (r: &str)
        ensures
            (match dialect {
                Dialect::European => r@ == self.european_example@,
                Dialect::Brazilian => r@ == self.brazilian_example@,
            }),
    {
        match dialect {
            Dialect::European => self.european_example.as_str(),
            Dialect::Brazilian => self.brazilian_example.as_str(),
        }
    }
}

/// Builds one difference entry from string literals.
fn diff_entry(
    category: &str,
    description: &str,
    european_example: &str,
    brazilian_example: &str,
    english_translation: &str,
) -> (r: DialectDifference)
    ensures
        r.category@ == category@,
        r.description@ == description@,
        r.european_example@ == european_example@,
        r.brazilian_example@ == brazilian_example@,
        r.english_translation@ == english_translation@,
{
    DialectDifference {
        category: category.to_owned(),
        description: description.to_owned(),
        european_example: european_example.to_owned(),
        brazilian_example: brazilian_example.to_owned(),
        english_translation: english_translation.to_owned(),
    }
}

/// Returns the key dialect differences between European and Brazilian
/// Portuguese: eight fixed entries.
pub fn get_key_differences() -> (r: Vec<DialectDifference>)
    ensures
        r@.len() == 8,
        r@[0].category@ == "You Form"@,
        r@[3].european_example@ == "Autocarro"@,
        r@[3].brazilian_example@ == "\u{d4}nibus"@,
{
    let mut v: Vec<DialectDifference> = Vec::new();
    v.push(
        diff_entry(
            "You Form",
            "European Portuguese uses 'Tu' (informal) and 'Voc\u{ea}' (formal), while Brazilian Portuguese primarily uses 'Voc\u{ea}' for both.",
            "Tu \u{e9}s muito simp\u{e1}tico.",
            "Voc\u{ea} \u{e9} muito simp\u{e1}tico.",
            "You are very nice.",
        ),
    );
    v.push(
        diff_entry(
            "Progressive Tense",
            "European Portuguese uses 'estar a + infinitive', while Brazilian Portuguese uses 'estar + gerund'.",
            "Estou a comer.",
            "Estou comendo.",
            "I am eating.",
        ),
    );
    v.push(
        diff_entry(
            "Pronoun Placement",
            "In European Portuguese, object pronouns usually follow the verb. In Brazilian Portuguese, they often precede it.",
            "Amo-te.",
            "Te amo.",
            "I love you.",
        ),
    );
    v.push(
        diff_entry(
            "Vocabulary - Bus",
            "Different words for common items.",
            "Autocarro",
            "\u{d4}nibus",
            "Bus",
        ),
    );
    v.push(
        diff_entry(
            "Vocabulary - Train",
            "Different words for common items.",
            "Comboio",
            "Trem",
            "Train",
        ),
    );
    v.push(
        diff_entry(
            "Vocabulary - Bathroom",
            "Different words for common items.",
            "Casa de banho",
            "Banheiro",
            "Bathroom",
        ),
    );
    v.push(
        diff_entry(
            "Vocabulary - Breakfast",
            "Different words for common items.",
            "Pequeno-almo\u{e7}o",
            "Caf\u{e9} da manh\u{e3}",
            "Breakfast",
        ),
    );
    v.push(
        diff_entry(
            "Gerund vs Infinitive",
            "Usage of gerund constructions differs significantly.",
            "Estou a trabalhar em casa.",
            "Estou trabalhando em casa.",
            "I am working from home.",
        ),
    );
    v
}

/// Vocabulary entry with dialect-specific translations.
#[derive(Debug, Clone, PartialEq)]
pub struct VocabularyEntry {
    /// English word/phrase.
    pub english: String,
    /// European Portuguese translation.
    pub european: String,
    /// Brazilian Portuguese translation.
    pub brazilian: String,
    /// Category (e.g., "Transportation", "Food", "Greetings").
    pub category: String,
    /// Phonetic pronunciation hint (optional).
    pub pronunciation_hint: Option<String>,
}

impl VocabularyEntry {
    /// Create a new vocabulary entry.
    pub fn new(english: String, european: String, brazilian: String, category: String) -> (r: Self)
        ensures
            r.english == english,
            r.european == european,
            r.brazilian == brazilian,
            r.category == category,
            r.pronunciation_hint is None,
    {
        Self { english, european, brazilian, category, pronunciation_hint: None }
    }

    /// Create a vocabulary entry with pronunciation hint.
    pub fn with_pronunciation(
        english: String,
        european: String,
        brazilian: String,
        category: String,
        pronunciation: String,
    ) -> (r: Self)
        ensures
            r.english == english,
            r.european == european,
            r.brazilian == brazilian,
            r.category == category,
            r.pronunciation_hint == Some(pronunciation),
    {
        Self { english, european, brazilian, category, pronunciation_hint: Some(pronunciation) }
    }

    /// Get the translation for a specific dialect.
    pub fn translation_for(&self, dialect: Dialect) -> (r: &str)
        ensures
            (match dialect {
                Dialect::European => r@ == self.european@,
                Dialect::Brazilian => r@ == self.brazilian@,
            }),
    {
        match dialect {
            Dialect::European => self.european.as_str(),
            Dialect::Brazilian => self.brazilian.as_str(),
        }
    }

    /// Check if the translations differ between dialects.
    pub fn has_dialect_difference(&self) -> (r: bool)
        ensures
            r == (self.european@ != self.brazilian@),
    {
        !crate::util::str_eq(self.european.as_str(), self.brazilian.as_str())
    }
}

} // verus!
