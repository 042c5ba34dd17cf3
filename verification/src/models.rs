//! Data models for lesson content: proficiency levels, languages and
//! dialects, questions, lessons, and lesson bundles.

pub mod content;
pub mod language;
pub mod lesson;
pub mod level;
pub mod question;
