//! The static snippets: the fallback offered whenever no contextual
//! completion applies, so a query is never answered with nothing at all.

use vstd::prelude::*;

use vstd::string::StringExecFns;

use crate::actions::completion::{cand_views, Candidate, CandidateKind, CandidateV};
use crate::buffer::Buffer;

verus! {

/// One static snippet: what is shown and what is inserted.
pub struct Snippet {
    pub label: String,
    pub detail: String,
    pub insert_text: String,
}

/// The body of the controller snippet.
pub open spec fn snippet_body() -> Seq<char> {
    "
class MyController extends BaseController {
    public function index() {
        return 'Hello, world!';
    }
}
"@
}

/// The candidates the static snippet list turns into: exactly one, the
/// controller skeleton.
pub open spec fn snippet_candidates() -> Seq<CandidateV> {
    seq![
        CandidateV {
            label: "ctrler"@,
            detail: "Snippet"@,
            kind: CandidateKind::Snippet,
            insert_text: Some(snippet_body()),
        },
    ]
}

/// The static snippet list.
pub fn snippets() -> (r: Vec<Snippet>)
    ensures
        r@.len() == 1,
        r@[0].label@ == "ctrler"@,
        r@[0].detail@ == "Snippet"@,
        r@[0].insert_text@ == snippet_body(),
{
    let s = Snippet {
        label: String::from_str("ctrler"),
        detail: String::from_str("Snippet"),
        insert_text: String::from_str(
            "
class MyController extends BaseController {
    public function index() {
        return 'Hello, world!';
    }
}
",
        ),
    };
    let mut v: Vec<Snippet> = Vec::new();
    v.push(s);
    v
}

impl Buffer {
    /// The static snippet list as completion candidates. Never empty.
    pub fn get_snippets(&self) -> (r: Vec<Candidate>)
        ensures
            cand_views(r@) == snippet_candidates(),
            r@.len() == 1,
    {
        let items = snippets();
        let mut out: Vec<Candidate> = Vec::new();
        let s = &items[0];
        out.push(
            Candidate {
                label: s.label.clone(),
                detail: s.detail.clone(),
                kind: CandidateKind::Snippet,
                insert_text: Some(s.insert_text.clone()),
            },
        );
        proof {
            assert(cand_views(out@) =~= snippet_candidates());
        }
        out
    }
}

} // verus!
