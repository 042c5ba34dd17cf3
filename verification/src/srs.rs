//! Spaced-repetition engine: review cards, the adaptive-interval scheduler,
//! and the indexed vocabulary store.

pub mod card;
pub mod scheduler;
pub mod vocabulary;
