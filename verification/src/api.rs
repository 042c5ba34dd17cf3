//! Plain data-transfer records for a host user interface, and the
//! achievement entry points it calls.

use vstd::prelude::*;

use crate::gamification::achievements::{
    earned_by_stats, AchievementId, AchievementTracker, UnlockedAchievement,
};
use crate::gamification::xp::XPSystem;
use crate::models::language::{Dialect, Language, LanguagePair};
use crate::models::level::CEFRLevel;
use crate::models::question::TypingMode;

verus! {

/// User preferences and settings.
#[derive(Debug, Clone, PartialEq)]
pub struct UserSettings {
    pub typing_mode: TypingMode,
    pub active_language_pair: Option<LanguagePair>,
    pub onboarding_completed: bool,
    pub dark_mode: bool,
    pub haptic_enabled: bool,
    pub notifications_enabled: bool,
}

impl Default for UserSettings {
    /// Fresh settings: lenient typing, no pair chosen, light mode, haptics
    /// and notifications on.
    fn default() -> (r: Self)
        ensures
            r.typing_mode == TypingMode::Lenient,
            r.active_language_pair is None,
            !r.onboarding_completed,
            !r.dark_mode,
            r.haptic_enabled,
            r.notifications_enabled,
    {
        Self {
            typing_mode: TypingMode::Lenient,
            active_language_pair: None,
            onboarding_completed: false,
            dark_mode: false,
            haptic_enabled: true,
            notifications_enabled: true,
        }
    }
}

/// Language information for display.
#[derive(Debug, Clone, PartialEq)]
pub struct LanguageInfo {
    pub language: Language,
    pub name: String,
    pub native_name: String,
    pub iso_code: String,
}

/// Dialect information for display.
#[derive(Debug, Clone, PartialEq)]
pub struct DialectInfo {
    pub dialect: Dialect,
    pub name: String,
    pub short_name: String,
    pub flag_emoji: String,
    pub locale_code: String,
}

/// Language pair information for display.
#[derive(Debug, Clone, PartialEq)]
pub struct LanguagePairInfo {
    pub pair: LanguagePair,
    pub display_name: String,
    pub content_dir: String,
    pub source_flag: String,
    pub target_flag: String,
}

/// CEFR level information for display.
#[derive(Debug, Clone, PartialEq)]
pub struct CEFRLevelInfo {
    pub level: CEFRLevel,
    pub name: String,
    pub short_name: String,
    pub description: String,
    pub color: String,
}

/// Achievement definition for display.
#[derive(Debug, Clone, PartialEq)]
pub struct AchievementDefinition {
    pub id: AchievementId,
    pub name: String,
    pub description: String,
    pub icon: String,
    pub xp_reward: u32,
}

/// Unlocked achievement info for display.
#[derive(Debug, Clone, PartialEq)]
pub struct AchievementInfo {
    pub id: AchievementId,
    pub name: String,
    pub description: String,
    pub icon: String,
    pub xp_reward: u32,
    pub unlocked_at: String,
}

/// Streak information for display.
#[derive(Debug, Clone, PartialEq)]
pub struct StreakInfo {
    pub current_streak: u32,
    pub longest_streak: u32,
    pub completed_today: bool,
}

/// XP trend data point.
#[derive(Debug, Clone, PartialEq)]
pub struct XPTrendPoint {
    pub date: String,
    pub xp: u32,
}

/// SRS mastery level info for display.
#[derive(Debug, Clone, PartialEq)]
pub struct SRSMasteryInfo {
    pub level: crate::srs::card::MasteryLevel,
    pub name: String,
    pub color: String,
}

/// Turns an unlock record into its display form.
fn info_of(a: &UnlockedAchievement) -> (r: AchievementInfo)
    ensures
        r.id == a.id,
        r.unlocked_at@ == a.unlocked_at@,
        r.xp_reward == a.id.spec_xp_reward(),
{
    AchievementInfo {
        id: a.id,
        name: a.id.name().to_owned(),
        description: a.id.description().to_owned(),
        icon: a.id.icon().to_owned(),
        xp_reward: a.id.xp_reward(),
        unlocked_at: a.unlocked_at.clone(),
    }
}

/// Check and unlock achievements based on current stats; returns display
/// records for the newly unlocked ones.
pub fn check_achievements(
    tracker: &mut AchievementTracker,
    total_xp: u32,
    current_streak: u32,
    current_level: u32,
    timestamp: String,
) -> (r: Vec<AchievementInfo>)
    ensures
        forall|x: AchievementId|
            final (tracker).spec_is_unlocked(x) == (old(tracker).spec_is_unlocked(x)
                || earned_by_stats(
                x,
                total_xp,
                current_streak,
                current_level,
                old(tracker).spec_lessons(),
                old(tracker).spec_perfect(),
                old(tracker).spec_pairs(),
            )),
        forall|j: int|
            0 <= j < r@.len() ==> earned_by_stats(
                (#[trigger] r@[j]).id,
                total_xp,
                current_streak,
                current_level,
                old(tracker).spec_lessons(),
                old(tracker).spec_perfect(),
                old(tracker).spec_pairs(),
            ) && !old(tracker).spec_is_unlocked(r@[j].id) && r@[j].unlocked_at@ == timestamp@,
{
    let newly = tracker.check_achievements(total_xp, current_streak, current_level, timestamp.as_str());
    let n = newly.len();
    let mut r: Vec<AchievementInfo> = Vec::new();
    let mut i: usize = 0;
    while i < n
        invariant
            n == newly@.len(),
            i <= n,
            r@.len() == i,
            forall|j: int|
                0 <= j < newly@.len() ==> earned_by_stats(
                    (#[trigger] newly@[j]).id,
                    total_xp,
                    current_streak,
                    current_level,
                    old(tracker).spec_lessons(),
                    old(tracker).spec_perfect(),
                    old(tracker).spec_pairs(),
                ) && !old(tracker).spec_is_unlocked(newly@[j].id) && newly@[j].unlocked_at@
                    == timestamp@,
            forall|j: int|
                0 <= j < i ==> (#[trigger] r@[j]).id == newly@[j].id && r@[j].unlocked_at@
                    == newly@[j].unlocked_at@,
        decreases n - i,
    {
        r.push(info_of(&newly[i]));
        i = i + 1;
    }
    r
}

/// Record lesson completion for achievements; returns display records for
/// the newly unlocked ones.
pub fn record_lesson_for_achievements(
    tracker: &mut AchievementTracker,
    perfect: bool,
    timestamp: String,
) -> (r: Vec<AchievementInfo>)
    requires
        old(tracker).spec_lessons() < u32::MAX,
        old(tracker).spec_perfect() < u32::MAX,
    ensures
        final (tracker).spec_lessons() == old(tracker).spec_lessons() + 1,
        forall|x: AchievementId|
            final (tracker).spec_is_unlocked(x) == (old(tracker).spec_is_unlocked(x) || (x
                == AchievementId::FirstLesson && old(tracker).spec_lessons() == 0) || (x
                == AchievementId::FirstPerfect && perfect && old(tracker).spec_perfect() == 0)),
        forall|j: int|
            0 <= j < r@.len() ==> !old(tracker).spec_is_unlocked((#[trigger] r@[j]).id) && (
            r@[j].id == AchievementId::FirstLesson || r@[j].id == AchievementId::FirstPerfect)
                && r@[j].unlocked_at@ == timestamp@,
{
    let newly = tracker.record_lesson_completion(perfect, timestamp.as_str());
    let n = newly.len();
    let mut r: Vec<AchievementInfo> = Vec::new();
    let mut i: usize = 0;
    while i < n
        invariant
            n == newly@.len(),
            i <= n,
            r@.len() == i,
            forall|j: int|
                0 <= j < newly@.len() ==> !old(tracker).spec_is_unlocked(
                    (#[trigger] newly@[j]).id,
                ) && (newly@[j].id == AchievementId::FirstLesson || newly@[j].id
                    == AchievementId::FirstPerfect) && newly@[j].unlocked_at@ == timestamp@,
            forall|j: int|
                0 <= j < i ==> (#[trigger] r@[j]).id == newly@[j].id && r@[j].unlocked_at@
                    == newly@[j].unlocked_at@,
        decreases n - i,
    {
        r.push(info_of(&newly[i]));
        i = i + 1;
    }
    r
}

/// Get all achievement definitions.
pub fn get_all_achievements() -> (r: Vec<AchievementDefinition>)
    ensures
        r@.len() == 33,
        forall|j: int|
            0 <= j < r@.len() ==> (#[trigger] r@[j]).xp_reward == r@[j].id.spec_xp_reward(),
{
    let all = AchievementId::all();
    let n = all.len();
    let mut r: Vec<AchievementDefinition> = Vec::new();
    let mut i: usize = 0;
    while i < n
        invariant
            n == all@.len(),
            n == 33,
            i <= n,
            r@.len() == i,
            forall|j: int|
                0 <= j < i ==> (#[trigger] r@[j]).xp_reward == r@[j].id.spec_xp_reward(),
        decreases n - i,
    {
        let id = all[i];
        r.push(
            AchievementDefinition {
                id,
                name: id.name().to_owned(),
                description: id.description().to_owned(),
                icon: id.icon().to_owned(),
                xp_reward: id.xp_reward(),
            },
        );
        i = i + 1;
    }
    r
}

/// Get XP trend-free streak information for display.
pub fn get_xp_level_info(xp_system: &XPSystem) -> (r: (u32, u32, u32))
    ensures
        r.0 == xp_system.spec_total_xp(),
        r.1 == xp_system.spec_today_xp(),
        r.2 == crate::gamification::xp::spec_level(xp_system.spec_total_xp()),
{
    (xp_system.total_xp(), xp_system.today_xp(), xp_system.current_level())
}

} // verus!
