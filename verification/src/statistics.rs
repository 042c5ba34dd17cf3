//! Learning statistics: per-day records and lifetime totals.

pub mod daily;
