//! The completion actions: contextual providers with their rule table, and
//! the static snippet fallback.

pub mod completion;
pub mod snippets;
