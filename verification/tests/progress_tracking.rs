use greengolingo::models::language::{Dialect, LanguagePair};
use greengolingo::models::level::CEFRLevel;
use greengolingo::tracker::ProgressTracker;

fn test_pair() -> LanguagePair {
    LanguagePair::new(Dialect::EnglishUS, Dialect::PortugueseEuropean)
}

#[test]
fn test_lesson_completion() {
    let mut tracker = ProgressTracker::new();
    let pair = test_pair();

    let result = tracker.record_lesson_completion(&pair, "lesson_01", 85);

    assert!(result.first_completion);
    assert_eq!(result.score_percent, 85);
    assert!(!result.is_perfect);
    assert_eq!(result.attempt_number, 1);
}

#[test]
fn test_improved_score() {
    let mut tracker = ProgressTracker::new();
    let pair = test_pair();

    tracker.record_lesson_completion(&pair, "lesson_01", 70);
    let result = tracker.record_lesson_completion(&pair, "lesson_01", 90);

    assert!(!result.first_completion);
    assert!(result.improved_score);
    assert_eq!(result.attempt_number, 2);
    assert_eq!(tracker.lesson_score(&pair, "lesson_01"), Some(90));
}

#[test]
fn test_progress_stats() {
    let mut tracker = ProgressTracker::new();
    let pair = test_pair();

    tracker.record_lesson_completion(&pair, "lesson_01", 100);
    tracker.record_lesson_completion(&pair, "lesson_02", 80);

    let stats = tracker.get_progress_stats(&pair, 10);

    assert_eq!(stats.completed_lessons, 2);
    assert_eq!(stats.total_lessons, 10);
    assert_eq!(stats.completion_percent, 20);
    assert_eq!(stats.perfect_lessons, 1);
    // mean of 100 and 80, in hundredths
    assert_eq!(stats.average_score, 9000);
}

#[test]
fn test_reset_pair_progress() {
    let mut tracker = ProgressTracker::new();
    let pair = test_pair();
    let other = LanguagePair::new(Dialect::PortugueseBrazilian, Dialect::EnglishUS);

    tracker.record_lesson_completion(&pair, "lesson_01", 60);
    tracker.record_lesson_completion(&other, "lesson_01", 70);
    assert_eq!(tracker.started_language_pairs().len(), 2);

    tracker.reset_pair_progress(&pair);
    assert!(!tracker.is_lesson_completed(&pair, "lesson_01"));
    assert!(tracker.is_lesson_completed(&other, "lesson_01"));
    assert_eq!(tracker.completed_count(&pair), 0);
    assert_eq!(tracker.completed_count(&other), 1);
    assert_eq!(tracker.lesson_attempts(&pair, "lesson_01"), 0);
    assert_eq!(tracker.completed_lessons(&other), vec!["lesson_01".to_string()]);

    tracker.reset_all();
    assert!(!tracker.is_lesson_completed(&other, "lesson_01"));
}

#[test]
fn test_preferences() {
    let mut tracker = ProgressTracker::new();
    assert_eq!(tracker.preferred_level(), CEFRLevel::A1);
    assert!(tracker.active_language_pair().is_none());

    tracker.set_preferred_level(CEFRLevel::B1);
    tracker.set_active_language_pair(test_pair());
    assert_eq!(tracker.preferred_level(), CEFRLevel::B1);
    assert_eq!(tracker.active_language_pair(), Some(&test_pair()));
}
