//! A completion backend for Laravel idioms in PHP sources.
//!
//! The crate keeps an incrementally replaced syntax tree for each open
//! document, resolves a cursor position to a semantic context ("inside the
//! first string argument of a call to `route`"), and dispatches that context
//! through a declarative rule table to a completion provider that reads a
//! cached snapshot of the project's routes and tables.

pub mod actions;
pub mod buffer;
pub mod context;
pub mod document_state;
pub mod grammar;
pub mod laravel;
pub mod syntax_tree;
pub mod types;
