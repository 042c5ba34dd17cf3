use greengolingo::gamification::achievements::{AchievementId, AchievementTracker};
use greengolingo::gamification::streak::{days_between, StreakStatus, StreakTracker};
use greengolingo::gamification::xp::XPSystem;

#[test]
fn test_first_lesson_achievement() {
    let mut tracker = AchievementTracker::new();
    let unlocked = tracker.record_lesson_completion(false, "2024-01-15T10:00:00");

    assert_eq!(unlocked.len(), 1);
    assert_eq!(unlocked[0].id, AchievementId::FirstLesson);
    assert!(tracker.is_unlocked(AchievementId::FirstLesson));
}

#[test]
fn test_first_perfect_achievement() {
    let mut tracker = AchievementTracker::new();
    let unlocked = tracker.record_lesson_completion(true, "2024-01-15T10:00:00");

    assert_eq!(unlocked.len(), 2);
    assert!(tracker.is_unlocked(AchievementId::FirstPerfect));
}

#[test]
fn test_xp_achievements() {
    let mut tracker = AchievementTracker::new();
    let unlocked = tracker.check_achievements(500, 0, 1, "2024-01-15T10:00:00");

    assert!(unlocked.iter().any(|a| a.id == AchievementId::Xp100));
    assert!(unlocked.iter().any(|a| a.id == AchievementId::Xp500));
}

#[test]
fn test_no_duplicate_unlocks() {
    let mut tracker = AchievementTracker::new();
    tracker.check_achievements(500, 0, 1, "2024-01-15T10:00:00");
    let unlocked = tracker.check_achievements(500, 0, 1, "2024-01-15T10:00:00");

    assert!(unlocked.is_empty());
}

#[test]
fn test_night_owl() {
    let mut tracker = AchievementTracker::new();
    let achievement = tracker.check_time_achievement(23, "2024-01-15T23:00:00");

    assert!(achievement.is_some());
    assert_eq!(achievement.unwrap().id, AchievementId::NightOwl);
}

#[test]
fn test_achievement_tables() {
    assert_eq!(AchievementId::FirstLesson.name(), "First Steps");
    assert_eq!(AchievementId::Xp100.xp_reward(), 10);
    assert_eq!(AchievementId::Streak365Days.xp_reward(), 1000);
    assert_eq!(AchievementId::all().len(), 33);
    let tracker = AchievementTracker::new();
    assert_eq!(tracker.total_achievements(), 33);
    assert_eq!(tracker.unlocked_count(), 0);
}

#[test]
fn test_new_streak() {
    let mut tracker = StreakTracker::new();
    let update = tracker.record_activity("2024-01-15");

    assert_eq!(update.current_streak, 1);
    assert!(update.streak_extended);
    assert!(!update.streak_broken);
}

#[test]
fn test_extend_streak() {
    let mut tracker = StreakTracker::new();
    tracker.record_activity("2024-01-15");
    let update = tracker.record_activity("2024-01-16");

    assert_eq!(update.current_streak, 2);
    assert!(update.streak_extended);
}

#[test]
fn test_break_streak() {
    let mut tracker = StreakTracker::new();
    tracker.record_activity("2024-01-15");
    tracker.record_activity("2024-01-16");
    let update = tracker.record_activity("2024-01-18");

    assert_eq!(update.current_streak, 1);
    assert!(update.streak_broken);
}

#[test]
fn test_streak_status() {
    let mut tracker = StreakTracker::new();
    tracker.record_activity("2024-01-15");

    assert_eq!(tracker.check_streak_status("2024-01-15"), StreakStatus::CompletedToday);
    assert_eq!(tracker.check_streak_status("2024-01-16"), StreakStatus::AtRisk);
    assert_eq!(tracker.check_streak_status("2024-01-17"), StreakStatus::Broken);
}

#[test]
fn test_days_between() {
    assert_eq!(days_between("2024-01-15", "2024-01-16"), 1);
    assert_eq!(days_between("2024-01-15", "2024-01-17"), 2);
    assert_eq!(days_between("2024-01-31", "2024-02-01"), 1);
    assert_eq!(days_between("2024-12-31", "2025-01-01"), 1);
}

#[test]
fn test_streak_longest_record() {
    let mut tracker = StreakTracker::with_values(2, 5, Some("2024-01-15".to_string()));
    let update = tracker.record_activity("2024-01-16");
    assert_eq!(update.current_streak, 3);
    assert!(!update.is_new_record);
    assert_eq!(tracker.longest_streak(), 5);
    assert_eq!(tracker.current_streak(), 3);
    assert!(tracker.completed_today());
    assert_eq!(tracker.last_activity_date(), Some("2024-01-16"));
    tracker.reset();
    assert_eq!(tracker.current_streak(), 0);
}

#[test]
fn test_xp_award() {
    let mut xp = XPSystem::new();
    let result = xp.award_xp(100, "2024-01-15");

    assert_eq!(result.amount_awarded, 100);
    assert_eq!(result.new_total, 100);
    assert_eq!(xp.total_xp(), 100);
}

#[test]
fn test_level_calculation() {
    let xp = XPSystem::with_values(400, 0, None);
    assert_eq!(xp.current_level(), 2);
}

#[test]
fn test_level_thresholds() {
    assert_eq!(XPSystem::with_values(0, 0, None).current_level(), 1);
    assert_eq!(XPSystem::with_values(399, 0, None).current_level(), 1);
    assert_eq!(XPSystem::with_values(900, 0, None).current_level(), 3);
    let xp = XPSystem::with_values(400, 0, None);
    assert_eq!(xp.xp_for_next_level(), 900);
    assert_eq!(xp.level_title(), "Learner");
}

#[test]
fn test_xp_day_rollover() {
    let mut xp = XPSystem::new();
    xp.award_xp(100, "2024-01-15");
    xp.award_xp(50, "2024-01-15");
    assert_eq!(xp.today_xp(), 150);
    let result = xp.award_xp(25, "2024-01-16");
    assert_eq!(result.today_total, 25);
    assert_eq!(result.new_total, 175);
}
