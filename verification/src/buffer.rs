//! One open document: its identity-free state. The buffer owns the full
//! text, the grammar adapter instance and the current syntax tree, and the
//! two are only ever replaced together, so no reader can observe a tree that
//! does not belong to the text.

use vstd::prelude::*;

use crate::context::{resolve_context_spec, Context, ContextV};
use crate::grammar::GrammarAdapter;
use crate::syntax_tree::{node_at_spec, Point, SyntaxTree};
use crate::types::languages::HostLanguage;

verus! {

/// Why a buffer could not be built.
#[derive(Clone, Copy, PartialEq, Eq, Structural, Debug)]
pub enum BufferError {
    /// The grammar could not be assigned to a fresh parser.
    GrammarUnavailable,
    /// The parser produced no tree for the initial text.
    ParseFailed,
}

/// The callee name a classification carries, if any.
pub open spec fn context_callee(c: ContextV) -> Option<Seq<char>> {
    match c {
        ContextV::NoContext => None,
        ContextV::CallContext { callee, form, leaf_kind } => Some(callee),
    }
}

/// One open document's text, grammar adapter and syntax tree.
pub struct Buffer {
    pub language: HostLanguage,
    pub adapter: GrammarAdapter,
    pub text: String,
    pub tree: SyntaxTree,
}

/// The buffer a host may consider current, if any is open.
pub struct CurrentBuffer(pub Option<Buffer>);

impl Buffer {
    /// The buffer's invariant: its tree is well-formed.
    pub open spec fn wf(&self) -> bool {
        self.tree.wf()
    }

    /// Open a buffer over `text`: parse it with a fresh PHP grammar adapter.
    /// On failure nothing is built, so no torn state can exist.
    pub fn new(text: String) -> (r: Result<Buffer, BufferError>)
        ensures
            r matches Ok(b) ==> b.wf() && b.text@ == text@ && b.language == HostLanguage::Php,
    {
        let mut adapter = match GrammarAdapter::new() {
            Some(a) => a,
            None => {
                return Err(BufferError::GrammarUnavailable);
            },
        };
        match adapter.parse(text.as_str()) {
            Some(tree) => Ok(Buffer { language: HostLanguage::Php, adapter, text, tree }),
            None => Err(BufferError::ParseFailed),
        }
    }

    /// Replace text and tree together from a fresh parse. When the parse
    /// fails the edit is rejected and both text and tree stay what they
    /// were; the buffer is never left torn between old and new.
    pub fn apply_edit(&mut self, new_text: String) -> (ok: bool)
        requires
            old(self).wf(),
        ensures
            final(self).wf(),
            final(self).language == old(self).language,
            ok ==> final(self).text@ == new_text@,
            !ok ==> final(self).text == old(self).text && final(self).tree == old(self).tree,
    {
        match self.adapter.parse(new_text.as_str()) {
            Some(tree) => {
                self.tree = tree;
                self.text = new_text;
                true
            },
            None => false,
        }
    }

    /// The most specific node of the current tree whose range contains the
    /// point; none when the point lies outside the document's range.
    pub fn get_node_at_point(&self, point: Point) -> (r: Option<usize>)
        requires
            self.wf(),
        ensures
            match r {
                Some(i) => Some(i as int) == node_at_spec(self.tree@, point@) && i
                    < self.tree@.len(),
                None => node_at_spec(self.tree@, point@) is None,
            },
    {
        self.tree.node_at(point)
    }

    /// Classify the cursor position against the current tree.
    pub fn resolve_context(&self, point: Point) -> (c: Context)
        requires
            self.wf(),
        ensures
            c@ == resolve_context_spec(self.tree@, point@),
    {
        self.tree.resolve_context(point)
    }

    /// The names of the variables in scope at the point. No scope analysis
    /// is carried out for any node kind yet, so resolving the point is the
    /// only work done and no names ever come back.
    pub fn get_variables_in_scope(&self, point: Point) -> (r: Option<Vec<String>>)
        requires
            self.wf(),
        ensures
            r is None,
    {
        match self.get_node_at_point(point) {
            None => None,
            Some(_node) => None,
        }
    }

    /// The callee name of the innermost call enclosing the point, if the
    /// point lies inside one.
    pub fn get_function_call(&self, point: Point) -> (r: Option<String>)
        requires
            self.wf(),
        ensures
            match r {
                Some(s) => context_callee(resolve_context_spec(self.tree@, point@)) == Some(s@),
                None => context_callee(resolve_context_spec(self.tree@, point@)) is None,
            },
    {
        match self.resolve_context(point) {
            Context::NoContext => None,
            Context::CallContext { callee, form: _, leaf_kind: _ } => Some(callee),
        }
    }
}

} // verus!
