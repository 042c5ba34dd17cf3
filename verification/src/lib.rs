//! Core logic of a language-learning application: dialect-aware lesson
//! content, question checking, learner progress, gamification counters,
//! spaced-repetition scheduling, an indexed vocabulary store, and learning
//! statistics.  Every function in this crate carries a contract checked by
//! Verus.

use vstd::prelude::*;

pub mod api;
pub mod dialect;
pub mod gamification;
pub mod lesson;
pub mod progress;
pub mod question;
pub mod models;
pub mod srs;
pub mod statistics;
pub mod textnorm;
pub mod tracker;
pub mod util;

verus! {

/// Application version.
pub const VERSION: &'static str = "0.1.0";

/// Application name.
pub const APP_NAME: &'static str = "GreengoLingo";

} // verus!
