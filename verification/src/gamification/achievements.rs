//! Achievements: threshold checks over the learner's statistics, with a
//! set of unlocked achievement ids and an unlock history.

use vstd::prelude::*;

verus! {

/// Defines all available achievements.
#[derive(Debug, Clone, Copy, PartialEq, Eq, Structural, Hash)]
pub enum AchievementId {
    FirstLesson,
    FirstPerfect,
    FirstLevel,
    Streak3Days,
    Streak7Days,
    Streak14Days,
    Streak30Days,
    Streak100Days,
    Streak365Days,
    Lessons10,
    Lessons25,
    Lessons50,
    Lessons100,
    Lessons500,
    Xp100,
    Xp500,
    Xp1000,
    Xp5000,
    Xp10000,
    Perfect5,
    Perfect10,
    Perfect25,
    Perfect50,
    CompleteA1,
    CompleteA2,
    CompleteB1,
    CompleteB2,
    CompleteC1,
    CompleteC2,
    NightOwl,
    EarlyBird,
    WeekendWarrior,
    Polyglot,
}

impl AchievementId {
    /// Get the display name for this achievement (a fixed display table).
    pub fn name(&self) -> &'static str {
        match self {
            Self::FirstLesson => "First Steps",
            Self::FirstPerfect => "Perfectionist",
            Self::FirstLevel => "Level Up",
            Self::Streak3Days => "Getting Started",
            Self::Streak7Days => "Week Warrior",
            Self::Streak14Days => "Two Week Streak",
            Self::Streak30Days => "Monthly Dedication",
            Self::Streak100Days => "Century Club",
            Self::Streak365Days => "Year of Learning",
            Self::Lessons10 => "Dedicated Learner",
            Self::Lessons25 => "Knowledge Seeker",
            Self::Lessons50 => "Halfway There",
            Self::Lessons100 => "Century Scholar",
            Self::Lessons500 => "Master Student",
            Self::Xp100 => "XP Beginner",
            Self::Xp500 => "XP Collector",
            Self::Xp1000 => "XP Hunter",
            Self::Xp5000 => "XP Expert",
            Self::Xp10000 => "XP Master",
            Self::Perfect5 => "Accuracy Ace",
            Self::Perfect10 => "Flawless Five",
            Self::Perfect25 => "Precision Pro",
            Self::Perfect50 => "Perfect Master",
            Self::CompleteA1 => "A1 Complete",
            Self::CompleteA2 => "A2 Complete",
            Self::CompleteB1 => "B1 Complete",
            Self::CompleteB2 => "B2 Complete",
            Self::CompleteC1 => "C1 Complete",
            Self::CompleteC2 => "Language Master",
            Self::NightOwl => "Night Owl",
            Self::EarlyBird => "Early Bird",
            Self::WeekendWarrior => "Weekend Warrior",
            Self::Polyglot => "Polyglot",
        }
    }

    /// Get the description for this achievement (a fixed display table).
    pub fn description(&self) -> &'static str {
        match self {
            Self::FirstLesson => "Complete your first lesson",
            Self::FirstPerfect => "Complete a lesson without any mistakes",
            Self::FirstLevel => "Reach level 2",
            Self::Streak3Days => "Maintain a 3-day streak",
            Self::Streak7Days => "Maintain a 7-day streak",
            Self::Streak14Days => "Maintain a 14-day streak",
            Self::Streak30Days => "Maintain a 30-day streak",
            Self::Streak100Days => "Maintain a 100-day streak",
            Self::Streak365Days => "Maintain a 365-day streak",
            Self::Lessons10 => "Complete 10 lessons",
            Self::Lessons25 => "Complete 25 lessons",
            Self::Lessons50 => "Complete 50 lessons",
            Self::Lessons100 => "Complete 100 lessons",
            Self::Lessons500 => "Complete 500 lessons",
            Self::Xp100 => "Earn 100 XP",
            Self::Xp500 => "Earn 500 XP",
            Self::Xp1000 => "Earn 1,000 XP",
            Self::Xp5000 => "Earn 5,000 XP",
            Self::Xp10000 => "Earn 10,000 XP",
            Self::Perfect5 => "Complete 5 perfect lessons",
            Self::Perfect10 => "Complete 10 perfect lessons",
            Self::Perfect25 => "Complete 25 perfect lessons",
            Self::Perfect50 => "Complete 50 perfect lessons",
            Self::CompleteA1 => "Complete all A1 lessons",
            Self::CompleteA2 => "Complete all A2 lessons",
            Self::CompleteB1 => "Complete all B1 lessons",
            Self::CompleteB2 => "Complete all B2 lessons",
            Self::CompleteC1 => "Complete all C1 lessons",
            Self::CompleteC2 => "Complete all C2 lessons",
            Self::NightOwl => "Complete a lesson after 10pm",
            Self::EarlyBird => "Complete a lesson before 6am",
            Self::WeekendWarrior => "Complete lessons on 10 different weekends",
            Self::Polyglot => "Study more than one language pair",
        }
    }

    /// Get the icon name for this achievement (a fixed display table).
    pub fn icon(&self) -> &'static str {
        match self {
            Self::FirstLesson => "star",
            Self::FirstPerfect => "check_circle",
            Self::FirstLevel => "trending_up",
            Self::Streak3Days | Self::Streak7Days | Self::Streak14Days | Self::Streak30Days
            | Self::Streak100Days | Self::Streak365Days => "local_fire_department",
            Self::Lessons10 | Self::Lessons25 | Self::Lessons50 | Self::Lessons100
            | Self::Lessons500 => "school",
            Self::Xp100 | Self::Xp500 | Self::Xp1000 | Self::Xp5000 | Self::Xp10000 => "bolt",
            Self::Perfect5 | Self::Perfect10 | Self::Perfect25 | Self::Perfect50 => {
                "workspace_premium"
            },
            Self::CompleteA1 | Self::CompleteA2 | Self::CompleteB1 | Self::CompleteB2
            | Self::CompleteC1 | Self::CompleteC2 => "emoji_events",
            Self::NightOwl => "dark_mode",
            Self::EarlyBird => "wb_sunny",
            Self::WeekendWarrior => "weekend",
            Self::Polyglot => "translate",
        }
    }

    /// Get XP reward for unlocking this achievement.
    pub fn xp_reward(&self) -> (r: u32)
        ensures
            r == self.spec_xp_reward(),
    {
        match self {
            Self::FirstLesson => 10,
            Self::FirstPerfect => 15,
            Self::FirstLevel => 20,
            Self::Streak3Days => 25,
            Self::Streak7Days => 50,
            Self::Streak14Days => 100,
            Self::Streak30Days => 200,
            Self::Streak100Days => 500,
            Self::Streak365Days => 1000,
            Self::Lessons10 => 30,
            Self::Lessons25 => 75,
            Self::Lessons50 => 150,
            Self::Lessons100 => 300,
            Self::Lessons500 => 1000,
            Self::Xp100 => 10,
            Self::Xp500 => 25,
            Self::Xp1000 => 50,
            Self::Xp5000 => 100,
            Self::Xp10000 => 200,
            Self::Perfect5 => 25,
            Self::Perfect10 => 50,
            Self::Perfect25 => 125,
            Self::Perfect50 => 250,
            Self::CompleteA1 => 100,
            Self::CompleteA2 => 150,
            Self::CompleteB1 => 200,
            Self::CompleteB2 => 250,
            Self::CompleteC1 => 300,
            Self::CompleteC2 => 500,
            Self::NightOwl => 15,
            Self::EarlyBird => 15,
            Self::WeekendWarrior => 100,
            Self::Polyglot => 50,
        }
    }

    /// The XP reward table.
    pub open spec fn spec_xp_reward(self) -> u32 {
        match self {
            Self::FirstLesson => 10,
            Self::FirstPerfect => 15,
            Self::FirstLevel => 20,
            Self::Streak3Days => 25,
            Self::Streak7Days => 50,
            Self::Streak14Days => 100,
            Self::Streak30Days => 200,
            Self::Streak100Days => 500,
            Self::Streak365Days => 1000,
            Self::Lessons10 => 30,
            Self::Lessons25 => 75,
            Self::Lessons50 => 150,
            Self::Lessons100 => 300,
            Self::Lessons500 => 1000,
            Self::Xp100 => 10,
            Self::Xp500 => 25,
            Self::Xp1000 => 50,
            Self::Xp5000 => 100,
            Self::Xp10000 => 200,
            Self::Perfect5 => 25,
            Self::Perfect10 => 50,
            Self::Perfect25 => 125,
            Self::Perfect50 => 250,
            Self::CompleteA1 => 100,
            Self::CompleteA2 => 150,
            Self::CompleteB1 => 200,
            Self::CompleteB2 => 250,
            Self::CompleteC1 => 300,
            Self::CompleteC2 => 500,
            Self::NightOwl => 15,
            Self::EarlyBird => 15,
            Self::WeekendWarrior => 100,
            Self::Polyglot => 50,
        }
    }

    /// Get all achievement IDs.
    pub fn all() -> (r: Vec<AchievementId>)
        ensures
            r@.len() == 33,
            forall|i1: int, i2: int| 0 <= i1 < i2 < r@.len() ==> r@[i1] != r@[i2],
    {
        let mut v: Vec<AchievementId> = Vec::new();
        v.push(Self::FirstLesson);
        v.push(Self::FirstPerfect);
        v.push(Self::FirstLevel);
        v.push(Self::Streak3Days);
        v.push(Self::Streak7Days);
        v.push(Self::Streak14Days);
        v.push(Self::Streak30Days);
        v.push(Self::Streak100Days);
        v.push(Self::Streak365Days);
        v.push(Self::Lessons10);
        v.push(Self::Lessons25);
        v.push(Self::Lessons50);
        v.push(Self::Lessons100);
        v.push(Self::Lessons500);
        v.push(Self::Xp100);
        v.push(Self::Xp500);
        v.push(Self::Xp1000);
        v.push(Self::Xp5000);
        v.push(Self::Xp10000);
        v.push(Self::Perfect5);
        v.push(Self::Perfect10);
        v.push(Self::Perfect25);
        v.push(Self::Perfect50);
        v.push(Self::CompleteA1);
        v.push(Self::CompleteA2);
        v.push(Self::CompleteB1);
        v.push(Self::CompleteB2);
        v.push(Self::CompleteC1);
        v.push(Self::CompleteC2);
        v.push(Self::NightOwl);
        v.push(Self::EarlyBird);
        v.push(Self::WeekendWarrior);
        v.push(Self::Polyglot);
        v
    }
}

/// An unlocked achievement.
#[derive(Debug, Clone, PartialEq)]
pub struct UnlockedAchievement {
    pub id: AchievementId,
    /// When the achievement was unlocked (ISO datetime).
    pub unlocked_at: String,
}

/// Whether the stats-based achievements are earned by these statistics.
pub open spec fn earned_by_stats(
    id: AchievementId,
    total_xp: u32,
    current_streak: u32,
    current_level: u32,
    lessons_completed: u32,
    perfect_lessons: u32,
    language_pairs: u32,
) -> bool {
    match id {
        AchievementId::Xp100 => total_xp >= 100,
        AchievementId::Xp500 => total_xp >= 500,
        AchievementId::Xp1000 => total_xp >= 1000,
        AchievementId::Xp5000 => total_xp >= 5000,
        AchievementId::Xp10000 => total_xp >= 10000,
        AchievementId::Streak3Days => current_streak >= 3,
        AchievementId::Streak7Days => current_streak >= 7,
        AchievementId::Streak14Days => current_streak >= 14,
        AchievementId::Streak30Days => current_streak >= 30,
        AchievementId::Streak100Days => current_streak >= 100,
        AchievementId::Streak365Days => current_streak >= 365,
        AchievementId::FirstLevel => current_level >= 2,
        AchievementId::Lessons10 => lessons_completed >= 10,
        AchievementId::Lessons25 => lessons_completed >= 25,
        AchievementId::Lessons50 => lessons_completed >= 50,
        AchievementId::Lessons100 => lessons_completed >= 100,
        AchievementId::Lessons500 => lessons_completed >= 500,
        AchievementId::Perfect5 => perfect_lessons >= 5,
        AchievementId::Perfect10 => perfect_lessons >= 10,
        AchievementId::Perfect25 => perfect_lessons >= 25,
        AchievementId::Perfect50 => perfect_lessons >= 50,
        AchievementId::Polyglot => language_pairs >= 2,
        _ => false,
    }
}

/// Tracks achievement progress and unlocks.
#[derive(Debug, Clone)]
pub struct AchievementTracker {
    /// Unlocked achievement ids, without duplicates.
    unlocked: Vec<AchievementId>,
    /// Detailed unlock info.
    unlock_history: Vec<UnlockedAchievement>,
    /// Lessons completed so far.
    lessons_completed: u32,
    /// Perfect lessons so far.
    perfect_lessons: u32,
    /// Weekends with at least one lesson.
    weekends_with_lessons: u32,
    /// Language pairs studied.
    language_pairs_studied: u32,
}

impl AchievementTracker {
    /// Whether an achievement is in the unlocked set, for specifications.
    pub open spec fn spec_is_unlocked(self, id: AchievementId) -> bool {
        exists|i: int| 0 <= i < self.spec_unlocked().len() && #[trigger] self.spec_unlocked()[i]
            == id
    }

    /// The unlocked ids, for specifications.
    pub closed spec fn spec_unlocked(self) -> Seq<AchievementId> {
        self.unlocked@
    }

    /// The unlock history, for specifications.
    pub closed spec fn spec_history(self) -> Seq<UnlockedAchievement> {
        self.unlock_history@
    }

    /// The lesson counter, for specifications.
    pub closed spec fn spec_lessons(self) -> u32 {
        self.lessons_completed
    }

    /// The perfect-lesson counter, for specifications.
    pub closed spec fn spec_perfect(self) -> u32 {
        self.perfect_lessons
    }

    /// The language-pair counter, for specifications.
    pub closed spec fn spec_pairs(self) -> u32 {
        self.language_pairs_studied
    }

    /// Create a new achievement tracker.
    pub fn new() -> (r: Self)
        ensures
            r.spec_unlocked() =~= Seq::<AchievementId>::empty(),
            r.spec_history() =~= Seq::<UnlockedAchievement>::empty(),
            r.spec_lessons() == 0,
            r.spec_perfect() == 0,
            r.spec_pairs() == 0,
    {
        Self {
            unlocked: Vec::new(),
            unlock_history: Vec::new(),
            lessons_completed: 0,
            perfect_lessons: 0,
            weekends_with_lessons: 0,
            language_pairs_studied: 0,
        }
    }

    /// Check if an achievement is unlocked.
    pub fn is_unlocked(&self, id: AchievementId) -> (r: bool)
        ensures
            r == self.spec_is_unlocked(id),
    {
        let n = self.unlocked.len();
        let mut i: usize = 0;
        while i < n
            invariant
                n == self.unlocked@.len(),
                i <= n,
                forall|k: int| 0 <= k < i ==> #[trigger] self.unlocked@[k] != id,
            decreases n - i,
        {
            if self.unlocked[i] == id {
                proof {
                    assert(self.spec_unlocked()[i as int] == id);
                }
                return true;
            }
            i = i + 1;
        }
        false
    }

    /// Get all unlocked achievements.
    pub fn unlocked_achievements(&self) -> (r: &Vec<UnlockedAchievement>)
        ensures
            r@ == self.spec_history(),
    {
        &self.unlock_history
    }

    /// Get count of unlocked achievements.
    pub fn unlocked_count(&self) -> (r: usize)
        ensures
            r == self.spec_unlocked().len(),
    {
        self.unlocked.len()
    }

    /// Get total available achievements.
    pub fn total_achievements(&self) -> (r: usize)
        ensures
            r == 33,
    {
        let all = AchievementId::all();
        all.len()
    }

    /// Unlocks an achievement unless it is already unlocked.
    fn try_unlock(&mut self, id: AchievementId, timestamp: &str) -> (r: Option<UnlockedAchievement>)
        ensures
            final (self).spec_lessons() == old(self).spec_lessons(),
            final (self).spec_perfect() == old(self).spec_perfect(),
            final (self).spec_pairs() == old(self).spec_pairs(),
            old(self).spec_is_unlocked(id) ==> r is None && *final (self) == *old(self),
            !old(self).spec_is_unlocked(id) ==> {
                &&& final (self).spec_unlocked() == old(self).spec_unlocked().push(id)
                &&& (r matches Some(a) && a.id == id && a.unlocked_at@ == timestamp@)
                &&& final (self).spec_history().len() == old(self).spec_history().len() + 1
                &&& final (self).spec_history().last().id == id
                &&& forall|i: int|
                    0 <= i < old(self).spec_history().len() ==> final (self).spec_history()[i]
                        == old(self).spec_history()[i]
            },
            forall|x: AchievementId|
                final (self).spec_is_unlocked(x) == (old(self).spec_is_unlocked(x) || (
                !old(self).spec_is_unlocked(id) && x == id)),
    {
        if self.is_unlocked(id) {
            return None;
        }
        let ghost old_unlocked = self.unlocked@;
        self.unlocked.push(id);
        let achievement = UnlockedAchievement { id, unlocked_at: timestamp.to_owned() };
        self.unlock_history.push(
            UnlockedAchievement { id, unlocked_at: timestamp.to_owned() },
        );
        proof {
            assert(self.spec_unlocked()[self.spec_unlocked().len() - 1] == id);
            assert forall|x: AchievementId|
                self.spec_is_unlocked(x) == (old(self).spec_is_unlocked(x) || x == id) by {
                if old(self).spec_is_unlocked(x) {
                    let i = choose|i: int|
                        0 <= i < old_unlocked.len() && #[trigger] old_unlocked[i] == x;
                    assert(self.spec_unlocked()[i] == x);
                }
                if self.spec_is_unlocked(x) && x != id {
                    let i = choose|i: int|
                        0 <= i < self.spec_unlocked().len() && #[trigger] self.spec_unlocked()[i]
                            == x;
                    assert(old_unlocked[i] == x);
                }
            }
        }
        Some(achievement)
    }

    /// Check and unlock achievements based on current stats.  Afterwards an
    /// achievement is unlocked exactly when it was before or its threshold
    /// is met; the returned list holds the newly unlocked ones.
    #[verifier::rlimit(50)]
    pub fn check_achievements(
        &mut self,
        total_xp: u32,
        current_streak: u32,
        current_level: u32,
        timestamp: &str,
    ) -> (r: Vec<UnlockedAchievement>)
        ensures
            final (self).spec_lessons() == old(self).spec_lessons(),
            final (self).spec_perfect() == old(self).spec_perfect(),
            final (self).spec_pairs() == old(self).spec_pairs(),
            forall|x: AchievementId|
                final (self).spec_is_unlocked(x) == (old(self).spec_is_unlocked(x)
                    || earned_by_stats(
                    x,
                    total_xp,
                    current_streak,
                    current_level,
                    old(self).spec_lessons(),
                    old(self).spec_perfect(),
                    old(self).spec_pairs(),
                )),
            forall|j: int|
                0 <= j < r@.len() ==> earned_by_stats(
                    (#[trigger] r@[j]).id,
                    total_xp,
                    current_streak,
                    current_level,
                    old(self).spec_lessons(),
                    old(self).spec_perfect(),
                    old(self).spec_pairs(),
                ) && !old(self).spec_is_unlocked(r@[j].id) && r@[j].unlocked_at@ == timestamp@,
    {
        let mut newly: Vec<UnlockedAchievement> = Vec::new();
        let lessons = self.lessons_completed;
        let perfect = self.perfect_lessons;
        let pairs = self.language_pairs_studied;
        self.check_xp_part(total_xp, timestamp, &mut newly);
        self.check_streak_part(current_streak, timestamp, &mut newly);
        self.check_progress_part(current_level, lessons, perfect, pairs, timestamp, &mut newly);
        newly
    }

    /// The XP thresholds.
    #[verifier::rlimit(50)]
    fn check_xp_part(&mut self, total_xp: u32, timestamp: &str, newly: &mut Vec<
        UnlockedAchievement,
    >)
        ensures
            final (self).spec_lessons() == old(self).spec_lessons(),
            final (self).spec_perfect() == old(self).spec_perfect(),
            final (self).spec_pairs() == old(self).spec_pairs(),
            forall|x: AchievementId|
                final (self).spec_is_unlocked(x) == (old(self).spec_is_unlocked(x) || ((x
                    == AchievementId::Xp100 && total_xp >= 100) || (x == AchievementId::Xp500
                    && total_xp >= 500) || (x == AchievementId::Xp1000 && total_xp >= 1000) || (x
                    == AchievementId::Xp5000 && total_xp >= 5000) || (x == AchievementId::Xp10000
                    && total_xp >= 10000))),
            forall|j: int|
                0 <= j < old(newly)@.len() ==> final (newly)@[j] == old(newly)@[j],
            final (newly)@.len() >= old(newly)@.len(),
            forall|j: int|
                old(newly)@.len() <= j < final (newly)@.len() ==> ({
                    let id = (#[trigger] final (newly)@[j]).id;
                    &&& ((id == AchievementId::Xp100 && total_xp >= 100) || (id
                        == AchievementId::Xp500 && total_xp >= 500) || (id
                        == AchievementId::Xp1000 && total_xp >= 1000) || (id
                        == AchievementId::Xp5000 && total_xp >= 5000) || (id
                        == AchievementId::Xp10000 && total_xp >= 10000))
                    &&& !old(self).spec_is_unlocked(id)
                    &&& final (newly)@[j].unlocked_at@ == timestamp@
                }),
    {
        if total_xp >= 100 {
            push_if_new(self, newly, AchievementId::Xp100, timestamp);
        }
        if total_xp >= 500 {
            push_if_new(self, newly, AchievementId::Xp500, timestamp);
        }
        if total_xp >= 1000 {
            push_if_new(self, newly, AchievementId::Xp1000, timestamp);
        }
        if total_xp >= 5000 {
            push_if_new(self, newly, AchievementId::Xp5000, timestamp);
        }
        if total_xp >= 10000 {
            push_if_new(self, newly, AchievementId::Xp10000, timestamp);
        }
    }

    /// The streak thresholds.
    #[verifier::rlimit(50)]
    fn check_streak_part(&mut self, current_streak: u32, timestamp: &str, newly: &mut Vec<
        UnlockedAchievement,
    >)
        ensures
            final (self).spec_lessons() == old(self).spec_lessons(),
            final (self).spec_perfect() == old(self).spec_perfect(),
            final (self).spec_pairs() == old(self).spec_pairs(),
            forall|x: AchievementId|
                final (self).spec_is_unlocked(x) == (old(self).spec_is_unlocked(x) || ((x
                    == AchievementId::Streak3Days && current_streak >= 3) || (x
                    == AchievementId::Streak7Days && current_streak >= 7) || (x
                    == AchievementId::Streak14Days && current_streak >= 14) || (x
                    == AchievementId::Streak30Days && current_streak >= 30) || (x
                    == AchievementId::Streak100Days && current_streak >= 100) || (x
                    == AchievementId::Streak365Days && current_streak >= 365))),
            forall|j: int|
                0 <= j < old(newly)@.len() ==> final (newly)@[j] == old(newly)@[j],
            final (newly)@.len() >= old(newly)@.len(),
            forall|j: int|
                old(newly)@.len() <= j < final (newly)@.len() ==> ({
                    let id = (#[trigger] final (newly)@[j]).id;
                    &&& ((id == AchievementId::Streak3Days && current_streak >= 3) || (id
                        == AchievementId::Streak7Days && current_streak >= 7) || (id
                        == AchievementId::Streak14Days && current_streak >= 14) || (id
                        == AchievementId::Streak30Days && current_streak >= 30) || (id
                        == AchievementId::Streak100Days && current_streak >= 100) || (id
                        == AchievementId::Streak365Days && current_streak >= 365))
                    &&& !old(self).spec_is_unlocked(id)
                    &&& final (newly)@[j].unlocked_at@ == timestamp@
                }),
    {
        if current_streak >= 3 {
            push_if_new(self, newly, AchievementId::Streak3Days, timestamp);
        }
        if current_streak >= 7 {
            push_if_new(self, newly, AchievementId::Streak7Days, timestamp);
        }
        if current_streak >= 14 {
            push_if_new(self, newly, AchievementId::Streak14Days, timestamp);
        }
        if current_streak >= 30 {
            push_if_new(self, newly, AchievementId::Streak30Days, timestamp);
        }
        if current_streak >= 100 {
            push_if_new(self, newly, AchievementId::Streak100Days, timestamp);
        }
        if current_streak >= 365 {
            push_if_new(self, newly, AchievementId::Streak365Days, timestamp);
        }
    }

    /// The level, lesson-count, perfect-lesson, and polyglot thresholds.
    #[verifier::rlimit(50)]
    fn check_progress_part(
        &mut self,
        current_level: u32,
        lessons: u32,
        perfect: u32,
        pairs: u32,
        timestamp: &str,
        newly: &mut Vec<UnlockedAchievement>,
    )
        ensures
            final (self).spec_lessons() == old(self).spec_lessons(),
            final (self).spec_perfect() == old(self).spec_perfect(),
            final (self).spec_pairs() == old(self).spec_pairs(),
            forall|x: AchievementId|
                final (self).spec_is_unlocked(x) == (old(self).spec_is_unlocked(x) || ((x
                    == AchievementId::FirstLevel && current_level >= 2) || (x
                    == AchievementId::Lessons10 && lessons >= 10) || (x
                    == AchievementId::Lessons25 && lessons >= 25) || (x
                    == AchievementId::Lessons50 && lessons >= 50) || (x
                    == AchievementId::Lessons100 && lessons >= 100) || (x
                    == AchievementId::Lessons500 && lessons >= 500) || (x
                    == AchievementId::Perfect5 && perfect >= 5) || (x == AchievementId::Perfect10
                    && perfect >= 10) || (x == AchievementId::Perfect25 && perfect >= 25) || (x
                    == AchievementId::Perfect50 && perfect >= 50) || (x == AchievementId::Polyglot
                    && pairs >= 2))),
            forall|j: int|
                0 <= j < old(newly)@.len() ==> final (newly)@[j] == old(newly)@[j],
            final (newly)@.len() >= old(newly)@.len(),
            forall|j: int|
                old(newly)@.len() <= j < final (newly)@.len() ==> ({
                    let id = (#[trigger] final (newly)@[j]).id;
                    &&& ((id == AchievementId::FirstLevel && current_level >= 2) || (id
                        == AchievementId::Lessons10 && lessons >= 10) || (id
                        == AchievementId::Lessons25 && lessons >= 25) || (id
                        == AchievementId::Lessons50 && lessons >= 50) || (id
                        == AchievementId::Lessons100 && lessons >= 100) || (id
                        == AchievementId::Lessons500 && lessons >= 500) || (id
                        == AchievementId::Perfect5 && perfect >= 5) || (id
                        == AchievementId::Perfect10 && perfect >= 10) || (id
                        == AchievementId::Perfect25 && perfect >= 25) || (id
                        == AchievementId::Perfect50 && perfect >= 50) || (id
                        == AchievementId::Polyglot && pairs >= 2))
                    &&& !old(self).spec_is_unlocked(id)
                    &&& final (newly)@[j].unlocked_at@ == timestamp@
                }),
    {
        if current_level >= 2 {
            push_if_new(self, newly, AchievementId::FirstLevel, timestamp);
        }
        if lessons >= 10 {
            push_if_new(self, newly, AchievementId::Lessons10, timestamp);
        }
        if lessons >= 25 {
            push_if_new(self, newly, AchievementId::Lessons25, timestamp);
        }
        if lessons >= 50 {
            push_if_new(self, newly, AchievementId::Lessons50, timestamp);
        }
        if lessons >= 100 {
            push_if_new(self, newly, AchievementId::Lessons100, timestamp);
        }
        if lessons >= 500 {
            push_if_new(self, newly, AchievementId::Lessons500, timestamp);
        }
        if perfect >= 5 {
            push_if_new(self, newly, AchievementId::Perfect5, timestamp);
        }
        if perfect >= 10 {
            push_if_new(self, newly, AchievementId::Perfect10, timestamp);
        }
        if perfect >= 25 {
            push_if_new(self, newly, AchievementId::Perfect25, timestamp);
        }
        if perfect >= 50 {
            push_if_new(self, newly, AchievementId::Perfect50, timestamp);
        }
        if pairs >= 2 {
            push_if_new(self, newly, AchievementId::Polyglot, timestamp);
        }
    }

    /// Record a completed lesson: bumps the counters and unlocks the
    /// first-lesson and first-perfect achievements when they first apply.
    #[verifier::rlimit(50)]
    pub fn record_lesson_completion(&mut self, perfect: bool, timestamp: &str) -> (r: Vec<
        UnlockedAchievement,
    >)
        requires
            old(self).spec_lessons() < u32::MAX,
            old(self).spec_perfect() < u32::MAX,
        ensures
            final (self).spec_lessons() == old(self).spec_lessons() + 1,
            final (self).spec_perfect() == old(self).spec_perfect() + (if perfect {
                1int
            } else {
                0
            }),
            forall|x: AchievementId|
                final (self).spec_is_unlocked(x) == (old(self).spec_is_unlocked(x) || (x
                    == AchievementId::FirstLesson && old(self).spec_lessons() == 0) || (x
                    == AchievementId::FirstPerfect && perfect && old(self).spec_perfect() == 0)),
            forall|j: int|
                0 <= j < r@.len() ==> !old(self).spec_is_unlocked((#[trigger] r@[j]).id) && (
                r@[j].id == AchievementId::FirstLesson || r@[j].id
                    == AchievementId::FirstPerfect) && r@[j].unlocked_at@ == timestamp@,
    {
        self.lessons_completed = self.lessons_completed + 1;
        if perfect {
            self.perfect_lessons = self.perfect_lessons + 1;
        }
        let mut newly: Vec<UnlockedAchievement> = Vec::new();
        let ghost s1 = *self;
        let first_lesson = self.lessons_completed == 1;
        if first_lesson {
            let a = self.try_unlock(AchievementId::FirstLesson, timestamp);
            match a {
                Some(x) => {
                    newly.push(x);
                },
                None => {},
            }
        }
        let ghost mid = *self;
        let first_perfect = perfect && self.perfect_lessons == 1;
        if first_perfect {
            let a = self.try_unlock(AchievementId::FirstPerfect, timestamp);
            match a {
                Some(x) => {
                    newly.push(x);
                },
                None => {},
            }
        }
        proof {
            assert forall|x: AchievementId|
                self.spec_is_unlocked(x) == (old(self).spec_is_unlocked(x) || (x
                    == AchievementId::FirstLesson && old(self).spec_lessons() == 0) || (x
                    == AchievementId::FirstPerfect && perfect && old(self).spec_perfect()
                    == 0)) by {
                assert(s1.spec_unlocked() == old(self).spec_unlocked());
                assert(s1.spec_is_unlocked(x) == old(self).spec_is_unlocked(x));
                assert(mid.spec_is_unlocked(x) == (s1.spec_is_unlocked(x) || (first_lesson && x
                    == AchievementId::FirstLesson && !s1.spec_is_unlocked(
                    AchievementId::FirstLesson,
                ))));
                assert(self.spec_is_unlocked(x) == (mid.spec_is_unlocked(x) || (first_perfect && x
                    == AchievementId::FirstPerfect && !mid.spec_is_unlocked(
                    AchievementId::FirstPerfect,
                ))));
            }
        }
        newly
    }

    /// Record studying a new language pair.
    pub fn record_language_pair(&mut self)
        requires
            old(self).spec_pairs() < u32::MAX,
        ensures
            final (self).spec_pairs() == old(self).spec_pairs() + 1,
            final (self).spec_unlocked() == old(self).spec_unlocked(),
            final (self).spec_lessons() == old(self).spec_lessons(),
            final (self).spec_perfect() == old(self).spec_perfect(),
    {
        self.language_pairs_studied = self.language_pairs_studied + 1;
    }

    /// Check time-based achievements: night owl from 10pm, early bird
    /// before 6am.
    pub fn check_time_achievement(&mut self, hour: u32, timestamp: &str) -> (r: Option<
        UnlockedAchievement,
    >)
        ensures
            6 <= hour < 22 ==> r is None && *final (self) == *old(self),
            hour >= 22 ==> (forall|x: AchievementId|
                final (self).spec_is_unlocked(x) == (old(self).spec_is_unlocked(x) || x
                    == AchievementId::NightOwl)),
            hour < 6 ==> (forall|x: AchievementId|
                final (self).spec_is_unlocked(x) == (old(self).spec_is_unlocked(x) || x
                    == AchievementId::EarlyBird)),
            (match r {
                Some(a) => (a.id == AchievementId::NightOwl || a.id == AchievementId::EarlyBird)
                    && !old(self).spec_is_unlocked(a.id),
                None => true,
            }),
    {
        if hour < 6 || hour >= 22 {
            if hour >= 22 {
                self.try_unlock(AchievementId::NightOwl, timestamp)
            } else {
                self.try_unlock(AchievementId::EarlyBird, timestamp)
            }
        } else {
            None
        }
    }
}

/// Unlocks one achievement when not yet held and appends it to the list of
/// new unlocks.
fn push_if_new(
    tracker: &mut AchievementTracker,
    newly: &mut Vec<UnlockedAchievement>,
    id: AchievementId,
    timestamp: &str,
)
    ensures
        final (tracker).spec_lessons() == old(tracker).spec_lessons(),
        final (tracker).spec_perfect() == old(tracker).spec_perfect(),
        final (tracker).spec_pairs() == old(tracker).spec_pairs(),
        forall|x: AchievementId|
            final (tracker).spec_is_unlocked(x) == (old(tracker).spec_is_unlocked(x) || x == id),
        forall|j: int|
            0 <= j < old(newly)@.len() ==> final (newly)@[j] == old(newly)@[j],
        final (newly)@.len() >= old(newly)@.len(),
        forall|j: int|
            old(newly)@.len() <= j < final (newly)@.len() ==> (#[trigger] final (newly)@[j]).id
                == id && !old(tracker).spec_is_unlocked(id) && final (newly)@[j].unlocked_at@
                == timestamp@,
{
    let a = tracker.try_unlock(id, timestamp);
    match a {
        Some(x) => {
            newly.push(x);
        },
        None => {},
    }
}

} // verus!
