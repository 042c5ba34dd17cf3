use greengolingo::models::content::{ContentBundle, ContentIndex};
use greengolingo::models::language::{Dialect, Language, LanguagePair};
use greengolingo::models::lesson::{Lesson, LessonMetadata};
use greengolingo::models::level::CEFRLevel;
use greengolingo::models::question::Question;

fn create_test_lesson(id: &str, level: CEFRLevel) -> Lesson {
    let pair = LanguagePair::new(Dialect::EnglishUS, Dialect::PortugueseEuropean);
    Lesson::builder(id.to_string(), "Test".to_string())
        .level(level)
        .language_pair(pair)
        .add_question(Question::typing(
            "Q".to_string(),
            vec!["A".to_string()],
            None,
            false,
        ))
        .build()
        .unwrap()
}

#[test]
fn test_content_bundle() {
    let mut bundle = ContentBundle::new();
    bundle.add_lesson(create_test_lesson("l1", CEFRLevel::A1));
    bundle.add_lesson(create_test_lesson("l2", CEFRLevel::A1));
    bundle.add_lesson(create_test_lesson("l3", CEFRLevel::A2));

    assert_eq!(bundle.lesson_count(), 3);
    assert_eq!(bundle.lessons_for_level(CEFRLevel::A1).len(), 2);
}

#[test]
fn test_content_index() {
    let mut bundle = ContentBundle::new();
    bundle.add_lesson(create_test_lesson("l1", CEFRLevel::A1));
    bundle.add_lesson(create_test_lesson("l2", CEFRLevel::A1));

    let index = ContentIndex::from_bundle(&bundle);
    assert_eq!(index.pairs.len(), 1);
    assert_eq!(index.pairs[0].levels[0].lesson_count, 2);
}

#[test]
fn test_dialect_language() {
    assert_eq!(Dialect::EnglishUS.language(), Language::English);
    assert_eq!(Dialect::PortugueseBrazilian.language(), Language::Portuguese);
}

#[test]
fn test_language_pair_content_dir() {
    let pair = LanguagePair::new(Dialect::EnglishUS, Dialect::PortugueseEuropean);
    assert_eq!(pair.content_dir(), "en_to_pt_pt");
}

#[test]
fn test_supported_pairs() {
    let pairs = LanguagePair::supported_pairs();
    assert_eq!(pairs.len(), 4);
}

#[test]
fn lesson_test_lesson_builder() {
    let pair = LanguagePair::new(Dialect::EnglishUS, Dialect::PortugueseEuropean);
    let question = Question::multiple_choice(
        "Test question".to_string(),
        vec!["A".to_string(), "B".to_string()],
        0,
        None,
    );

    let lesson = Lesson::builder("test_01".to_string(), "Test Lesson".to_string())
        .description("A test lesson".to_string())
        .level(CEFRLevel::A1)
        .language_pair(pair)
        .xp_reward(15)
        .add_question(question)
        .order(1)
        .build()
        .unwrap();

    assert_eq!(lesson.id, "test_01");
    assert_eq!(lesson.question_count(), 1);
    assert_eq!(lesson.xp_reward, 15);
}

#[test]
fn test_lesson_metadata() {
    let pair = LanguagePair::new(Dialect::EnglishUS, Dialect::PortugueseEuropean);
    let question = Question::typing("Test".to_string(), vec!["answer".to_string()], None, false);

    let lesson = Lesson::builder("meta_test".to_string(), "Metadata Test".to_string())
        .language_pair(pair)
        .add_question(question)
        .build()
        .unwrap();

    let metadata: LessonMetadata = LessonMetadata::from(&lesson);
    assert_eq!(metadata.id, "meta_test");
    assert_eq!(metadata.question_count, 1);
}

#[test]
fn test_lesson_builder_requires_pair() {
    let result = Lesson::builder("x".to_string(), "X".to_string())
        .add_question(Question::typing("Q".to_string(), vec!["A".to_string()], None, false))
        .build();
    assert_eq!(result.unwrap_err(), "Language pair is required");
}

#[test]
fn test_lesson_builder_requires_questions() {
    let pair = LanguagePair::new(Dialect::EnglishUS, Dialect::PortugueseEuropean);
    let result = Lesson::builder("x".to_string(), "X".to_string())
        .language_pair(pair)
        .build();
    assert_eq!(result.unwrap_err(), "At least one question is required");
}

#[test]
fn test_level_ordering() {
    assert!(CEFRLevel::A1 < CEFRLevel::A2);
    assert!(CEFRLevel::B2 < CEFRLevel::C1);
}

#[test]
fn test_next_level() {
    assert_eq!(CEFRLevel::A1.next(), Some(CEFRLevel::A2));
    assert_eq!(CEFRLevel::C2.next(), None);
}

#[test]
fn test_from_str() {
    assert_eq!(CEFRLevel::parse("a1"), Some(CEFRLevel::A1));
    assert_eq!(CEFRLevel::parse("B2"), Some(CEFRLevel::B2));
    assert_eq!(CEFRLevel::parse("invalid"), None);
}

#[test]
fn question_test_sentence_builder() {
    let q = Question::sentence_builder(
        "Translate: I am happy".to_string(),
        vec!["Eu".to_string(), "estou".to_string(), "feliz".to_string()],
        vec![0, 1, 2],
        vec!["triste".to_string()],
    );

    assert_eq!(q.question_type(), "sentence_builder");
}

#[test]
fn test_question_prompt() {
    let q = Question::typing(
        "Write 'Thank you' in Portuguese".to_string(),
        vec!["Obrigado".to_string(), "Obrigada".to_string()],
        None,
        false,
    );

    assert_eq!(q.prompt(), "Write 'Thank you' in Portuguese");
}
