use greengolingo::dialect::{get_key_differences, Dialect, DialectDifference, VocabularyEntry};
use greengolingo::lesson::{CEFRLevel, CheatSheet, CheatSheetExample, Lesson, LessonUnit, Level};
use greengolingo::progress::{is_consecutive_day, QuestionAttempt};
use greengolingo::question::{
    strings_match_ignoring_accents, MultipleChoiceOption, Question, QuestionContext, QuestionType,
    TypingMode,
};
use greengolingo::{APP_NAME, VERSION};

#[test]
fn test_version() {
    assert!(!VERSION.is_empty());
}

#[test]
fn test_app_name() {
    assert_eq!(APP_NAME, "GreengoLingo");
}

#[test]
fn test_dialect_display_name() {
    assert_eq!(Dialect::European.display_name(), "European Portuguese (PT-PT)");
    assert_eq!(Dialect::Brazilian.display_name(), "Brazilian Portuguese (PT-BR)");
}

#[test]
fn test_dialect_code() {
    assert_eq!(Dialect::European.code(), "pt-pt");
    assert_eq!(Dialect::Brazilian.code(), "pt-br");
}

#[test]
fn test_dialect_region() {
    assert_eq!(Dialect::European.region(), "Portugal");
    assert_eq!(Dialect::Brazilian.region(), "Brazil");
}

#[test]
fn test_dialect_difference_example() {
    let diff = DialectDifference::new(
        "Test".to_string(),
        "Test difference".to_string(),
        "European example".to_string(),
        "Brazilian example".to_string(),
        "English".to_string(),
    );
    assert_eq!(diff.example_for(Dialect::European), "European example");
    assert_eq!(diff.example_for(Dialect::Brazilian), "Brazilian example");
}

#[test]
fn test_key_differences() {
    let differences = get_key_differences();
    assert!(!differences.is_empty());
    assert!(differences.len() >= 5);
}

#[test]
fn test_vocabulary_entry() {
    let entry = VocabularyEntry::new(
        "Bus".to_string(),
        "Autocarro".to_string(),
        "\u{d4}nibus".to_string(),
        "Transportation".to_string(),
    );
    assert_eq!(entry.translation_for(Dialect::European), "Autocarro");
    assert_eq!(entry.translation_for(Dialect::Brazilian), "\u{d4}nibus");
    assert!(entry.has_dialect_difference());
}

#[test]
fn test_vocabulary_entry_same_translation() {
    let entry = VocabularyEntry::new(
        "Hello".to_string(),
        "Ol\u{e1}".to_string(),
        "Ol\u{e1}".to_string(),
        "Greetings".to_string(),
    );
    assert!(!entry.has_dialect_difference());
}

#[test]
fn test_cefr_level_display() {
    assert_eq!(CEFRLevel::A1.display_name(), "A1 - Beginner");
    assert_eq!(CEFRLevel::C2.display_name(), "C2 - Proficient");
}

#[test]
fn test_cefr_level_all() {
    let levels = CEFRLevel::all();
    assert_eq!(levels.len(), 6);
    assert_eq!(levels[0], CEFRLevel::A1);
    assert_eq!(levels[5], CEFRLevel::C2);
}

#[test]
fn test_cefr_level_next() {
    assert_eq!(CEFRLevel::A1.next(), Some(CEFRLevel::A2));
    assert_eq!(CEFRLevel::C2.next(), None);
}

#[test]
fn test_cefr_level_previous() {
    assert_eq!(CEFRLevel::A1.previous(), None);
    assert_eq!(CEFRLevel::A2.previous(), Some(CEFRLevel::A1));
}

#[test]
fn test_level_code() {
    let level = Level::new(
        CEFRLevel::A1,
        1,
        "Introduction".to_string(),
        vec!["Order a coffee".to_string()],
    );
    assert_eq!(level.code(), "A1.1");
}

#[test]
fn test_cheat_sheet_builder() {
    let cheat_sheet = CheatSheet::new(
        "Present Tense".to_string(),
        "The present tense is used for current actions.".to_string(),
    )
    .with_example(CheatSheetExample::new("Eu falo".to_string(), "I speak".to_string()))
    .with_mistake("Don't forget verb conjugation endings".to_string())
    .with_tip("Regular -ar verbs follow a consistent pattern".to_string());

    assert_eq!(cheat_sheet.title, "Present Tense");
    assert_eq!(cheat_sheet.examples.len(), 1);
    assert_eq!(cheat_sheet.common_mistakes.len(), 1);
    assert_eq!(cheat_sheet.tips.len(), 1);
}

#[test]
fn test_lesson_unit_builder() {
    let unit = LessonUnit::new(
        "unit-1".to_string(),
        "Greetings".to_string(),
        "Learn basic greetings".to_string(),
        Dialect::European,
    )
    .with_vocabulary(vec!["Ol\u{e1}".to_string(), "Bom dia".to_string()]);

    assert_eq!(unit.id, "unit-1");
    assert_eq!(unit.vocabulary.len(), 2);
}

#[test]
fn test_lesson_builder() {
    let level = Level::new(
        CEFRLevel::A1,
        1,
        "First Steps".to_string(),
        vec!["Introduce yourself".to_string()],
    );
    let unit = LessonUnit::new(
        "unit-1".to_string(),
        "Greetings".to_string(),
        "Learn basic greetings".to_string(),
        Dialect::European,
    );
    let lesson = Lesson::new(
        "lesson-1".to_string(),
        level,
        "Hello World".to_string(),
        "Your first Portuguese lesson".to_string(),
        Dialect::European,
    )
    .with_unit(unit);

    assert_eq!(lesson.id, "lesson-1");
    assert_eq!(lesson.units.len(), 1);
    assert!(lesson.allows_challenge_out);
}

#[test]
fn test_question_type_display() {
    assert_eq!(QuestionType::MultipleChoice.display_name(), "Multiple Choice");
    assert_eq!(QuestionType::Typing.display_name(), "Typing");
}

#[test]
fn test_typing_mode_display() {
    assert_eq!(TypingMode::Lenient.display_name(), "Lenient (accents optional)");
    assert_eq!(TypingMode::Strict.display_name(), "Strict (accents required)");
}

#[test]
fn test_multiple_choice_question() {
    let options = vec![
        MultipleChoiceOption::new("Bom dia".to_string(), true),
        MultipleChoiceOption::new("Boa noite".to_string(), false),
        MultipleChoiceOption::new("Ol\u{e1}".to_string(), false),
    ];
    let question = Question::multiple_choice(
        "q1".to_string(),
        "How do you say 'Good morning'?".to_string(),
        options,
    );

    assert_eq!(question.question_type, QuestionType::MultipleChoice);
    assert_eq!(question.correct_answer, "Bom dia");
    assert_eq!(question.options.len(), 3);
}

#[test]
fn test_typing_question() {
    let question = Question::typing(
        "q1".to_string(),
        "Translate: 'Hello'".to_string(),
        "Ol\u{e1}".to_string(),
    );

    assert_eq!(question.question_type, QuestionType::Typing);
    assert_eq!(question.correct_answer, "Ol\u{e1}");
}

#[test]
fn test_question_flagging() {
    let mut question = Question::typing("q1".to_string(), "Test".to_string(), "Test".to_string());
    assert_eq!(question.flag_count, 0);

    question.flag_for_review();
    assert_eq!(question.flag_count, 1);

    question.flag_for_review();
    assert_eq!(question.flag_count, 2);
}

#[test]
fn test_naturalness_score() {
    let mut question = Question::typing("q1".to_string(), "Test".to_string(), "Test".to_string());
    assert!(question.naturalness_score.is_none());

    question.set_naturalness_score(85);
    assert_eq!(question.naturalness_score, Some(85));

    question.set_naturalness_score(150);
    assert_eq!(question.naturalness_score, Some(100));
}

#[test]
fn test_strings_match_ignoring_accents() {
    assert!(strings_match_ignoring_accents("p\u{e3}o", "pao"));
    assert!(strings_match_ignoring_accents("caf\u{e9}", "cafe"));
    assert!(strings_match_ignoring_accents("cora\u{e7}\u{e3}o", "coracao"));
    assert!(!strings_match_ignoring_accents("p\u{e3}o", "pau"));
}

#[test]
fn test_context_creation() {
    let context = QuestionContext::new("Someone asks you for directions".to_string());
    assert!(context.image.is_none());
    assert!(context.audio.is_none());

    let context_with_image =
        QuestionContext::with_image("At a bakery".to_string(), "bakery.jpg".to_string());
    assert!(context_with_image.image.is_some());
}

#[test]
fn test_question_attempt_mastery() {
    let mut attempt = QuestionAttempt::new("q1".to_string());
    assert!(!attempt.is_mastered());

    attempt.record(true);
    attempt.record(true);
    assert!(!attempt.is_mastered());

    attempt.record(true);
    assert!(attempt.is_mastered());
}

#[test]
fn test_question_attempt_streak_reset() {
    let mut attempt = QuestionAttempt::new("q1".to_string());
    attempt.record(true);
    attempt.record(true);
    attempt.record(false);
    assert!(!attempt.is_mastered());
    assert_eq!(attempt.consecutive_correct, 0);
}

#[test]
fn test_is_consecutive_day() {
    assert!(is_consecutive_day("2025-01-01", "2025-01-02"));
    assert!(is_consecutive_day("2025-01-15", "2025-01-16"));

    assert!(is_consecutive_day("2025-01-31", "2025-02-01"));
    assert!(is_consecutive_day("2025-03-31", "2025-04-01"));

    assert!(is_consecutive_day("2024-12-31", "2025-01-01"));

    assert!(is_consecutive_day("2024-02-28", "2024-02-29"));
    assert!(is_consecutive_day("2024-02-29", "2024-03-01"));

    assert!(is_consecutive_day("2025-02-28", "2025-03-01"));

    assert!(!is_consecutive_day("2025-01-01", "2025-01-03"));
    assert!(!is_consecutive_day("2025-01-01", "2025-02-01"));
    assert!(!is_consecutive_day("2025-01-15", "2025-01-15"));
}

#[test]
fn test_strings_match_exact_trims_and_folds_case() {
    assert!(greengolingo::question::strings_match_exact("  P\u{c3}O ", "p\u{e3}o"));
    assert!(!greengolingo::question::strings_match_exact("p\u{e3}o", "pao"));
}
