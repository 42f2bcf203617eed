//! The host languages a document's grammar can belong to.

use vstd::prelude::*;

verus! {

/// The host language of a document. Completion rules are keyed by it, so
/// adding a language is a data addition, not a new code path.
#[derive(Clone, Copy, PartialEq, Eq, Structural, Debug)]
pub enum HostLanguage {
    Php,
}

} // verus!
