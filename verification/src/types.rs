//! Shared plain types.

pub mod languages;
