//! Gamification systems: XP, streaks, and achievements.

pub mod achievements;
pub mod streak;
pub mod xp;
