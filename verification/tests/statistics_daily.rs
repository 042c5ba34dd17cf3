use greengolingo::statistics::daily::{DailyStats, QuestionTypeStats, StatisticsTracker};

#[test]
fn test_daily_stats() {
    let mut stats = DailyStats::new("2024-01-15");
    stats.record_lesson_completion(100, 10, 8, 300, "A1");

    assert_eq!(stats.xp_earned, 100);
    assert_eq!(stats.lessons_completed, 1);
    assert_eq!(stats.questions_answered, 10);
    assert_eq!(stats.questions_correct, 8);
    assert_eq!(stats.levels_practiced, vec!["A1".to_string()]);
}

#[test]
fn test_question_type_tracking() {
    let mut stats = DailyStats::new("2024-01-15");
    stats.record_question("multiple_choice", true);
    stats.record_question("multiple_choice", true);
    stats.record_question("multiple_choice", false);
    stats.record_question("typing", true);

    assert_eq!(stats.accuracy_by_type.len(), 2);
    let mc_stats = &stats.accuracy_by_type[0];
    assert_eq!(mc_stats.0, "multiple_choice");
    assert_eq!(mc_stats.1.answered, 3);
    assert_eq!(mc_stats.1.correct, 2);
}

#[test]
fn test_statistics_tracker() {
    let mut tracker = StatisticsTracker::new();
    tracker.record_lesson_completion("2024-01-15", 100, 10, 8, 300, "A1");
    tracker.record_lesson_completion("2024-01-16", 150, 12, 10, 400, "A1");

    assert_eq!(tracker.lifetime.total_xp, 250);
    assert_eq!(tracker.lifetime.total_lessons, 2);
    assert_eq!(tracker.days_tracked(), 2);
}

#[test]
fn test_xp_trend() {
    let mut tracker = StatisticsTracker::new();
    tracker.record_lesson_completion("2024-01-15", 100, 10, 8, 300, "A1");
    tracker.record_lesson_completion("2024-01-16", 150, 12, 10, 400, "A1");

    let trend = tracker.xp_trend(7);
    assert_eq!(trend.len(), 2);
    assert_eq!(trend[0], ("2024-01-15".to_string(), 100));
    assert_eq!(trend[1], ("2024-01-16".to_string(), 150));
}

#[test]
fn test_days_stay_sorted() {
    let mut tracker = StatisticsTracker::new();
    tracker.record_srs_review("2024-01-16", true);
    tracker.record_srs_review("2024-01-14", false);
    tracker.record_srs_review("2024-01-15", true);
    tracker.record_srs_review("2024-01-14", true);

    assert_eq!(tracker.days_tracked(), 3);
    let recent = tracker.get_recent(2);
    assert_eq!(recent.len(), 2);
    assert_eq!(recent[0].date, "2024-01-16");
    assert_eq!(recent[1].date, "2024-01-15");

    let range = tracker.get_range("2024-01-14", "2024-01-15");
    assert_eq!(range.len(), 2);
    assert_eq!(tracker.lifetime.total_srs_reviews, 4);
    assert_eq!(tracker.lifetime.total_srs_correct, 3);

    assert!(tracker.get_daily("2024-01-14").is_some());
    assert!(tracker.get_daily("2024-01-13").is_none());
}

#[test]
fn test_lifetime_merge() {
    let mut daily = DailyStats::new("2024-01-15");
    daily.record_lesson_completion(100, 10, 8, 300, "A1");
    daily.record_words_learned(5);

    let mut lifetime = greengolingo::statistics::daily::LifetimeStats::new();
    lifetime.update_from_daily(&daily);
    assert_eq!(lifetime.total_xp, 100);
    assert_eq!(lifetime.total_words, 5);
    assert_eq!(lifetime.first_activity_date, Some("2024-01-15".to_string()));

    let mut merged = QuestionTypeStats::new();
    merged.record(true);
    merged.merge(&QuestionTypeStats { answered: 4, correct: 2 });
    assert_eq!(merged.answered, 5);
    assert_eq!(merged.correct, 3);
}

#[test]
fn test_update_streak() {
    let mut tracker = StatisticsTracker::new();
    tracker.update_streak(3, 5);
    tracker.update_streak(1, 2);
    assert_eq!(tracker.lifetime.current_streak, 1);
    assert_eq!(tracker.lifetime.longest_streak, 5);
}
