//! The grammar adapter: a thin boundary around the tree-sitter incremental
//! parser with its PHP grammar. Each call into the parser library stands
//! behind one trusted wrapper; the walk that copies the parser's tree into
//! the crate's own `SyntaxTree` is ordinary verified code over those
//! wrappers and establishes the tree's well-formedness by construction.

use vstd::prelude::*;

use crate::syntax_tree::{tree_wf, wf_node, NodeKind, Point, SyntaxNode, SyntaxTree};

verus! {

broadcast use crate::syntax_tree::lemma_tree_view_index;

#[verifier::external_type_specification]
#[verifier::external_body]
pub struct ExParser(tree_sitter::Parser);

#[verifier::external_type_specification]
#[verifier::external_body]
pub struct ExLanguage(tree_sitter::Language);

#[verifier::external_type_specification]
#[verifier::external_body]
pub struct ExTree(tree_sitter::Tree);

#[verifier::external_type_specification]
#[verifier::external_body]
pub struct ExNode<'tree>(tree_sitter::Node<'tree>);

/// Relies on tree_sitter_php::LANGUAGE_PHP and tree_sitter::Language::from:
/// hands out the PHP grammar.
#[verifier::external_body]
fn php_language() -> tree_sitter::Language {
    tree_sitter::Language::from(tree_sitter_php::LANGUAGE_PHP)
}

/// Relies on tree_sitter::Parser::new: a fresh parser with no language set.
#[verifier::external_body]
fn parser_new() -> tree_sitter::Parser {
    tree_sitter::Parser::new()
}

/// Relies on tree_sitter::Parser::set_language: true exactly when the
/// grammar was accepted for parsing.
#[verifier::external_body]
fn parser_set_language(p: &mut tree_sitter::Parser, l: &tree_sitter::Language) -> bool {
    p.set_language(l).is_ok()
}

/// Relies on tree_sitter::Parser::parse: a best-effort tree for any input
/// once a language is set; `None` only when no language was assigned or
/// parsing was cancelled, never because the source is malformed.
#[verifier::external_body]
fn parser_parse(p: &mut tree_sitter::Parser, text: &str) -> Option<tree_sitter::Tree> {
    p.parse(text, None)
}

/// Relies on tree_sitter::Tree::root_node.
#[verifier::external_body]
fn tree_root_node<'t>(t: &'t tree_sitter::Tree) -> tree_sitter::Node<'t> {
    t.root_node()
}

/// Relies on tree_sitter::Node::kind: the node's grammar kind name.
#[verifier::external_body]
fn node_kind_name(n: &tree_sitter::Node) -> String {
    n.kind().to_owned()
}

/// Relies on tree_sitter::Node::child_count.
#[verifier::external_body]
fn node_child_count(n: &tree_sitter::Node) -> u32 {
    n.child_count()
}

/// Relies on tree_sitter::Node::child: the i-th child, anonymous tokens
/// counted, `None` when `i` is out of range.
#[verifier::external_body]
fn node_child<'t>(n: &tree_sitter::Node<'t>, i: u32) -> Option<tree_sitter::Node<'t>> {
    n.child(i)
}

/// Relies on tree_sitter::Node::start_position: the node's start as
/// zero-based (row, column).
#[verifier::external_body]
fn node_start_position(n: &tree_sitter::Node) -> (usize, usize) {
    let p = n.start_position();
    (p.row, p.column)
}

/// Relies on tree_sitter::Node::end_position: the node's end as zero-based
/// (row, column).
#[verifier::external_body]
fn node_end_position(n: &tree_sitter::Node) -> (usize, usize) {
    let p = n.end_position();
    (p.row, p.column)
}

/// Relies on tree_sitter::Node::start_byte.
#[verifier::external_body]
fn node_start_byte(n: &tree_sitter::Node) -> usize {
    n.start_byte()
}

/// Relies on tree_sitter::Node::end_byte.
#[verifier::external_body]
fn node_end_byte(n: &tree_sitter::Node) -> usize {
    n.end_byte()
}

/// Relies on str::get: the slice of `source` between byte offsets `a` and
/// `b`, or an empty string when the offsets are out of range or split a
/// character. For an ASCII source byte offsets and character indices agree.
#[verifier::external_body]
fn text_slice(source: &str, a: usize, b: usize) -> (r: String)
    ensures
        source.is_ascii() && a <= b <= source@.len() ==> r@ == source@.subrange(
            a as int,
            b as int,
        ),
{
    match source.get(a..b) {
        Some(s) => s.to_owned(),
        None => String::new(),
    }
}

/// The kind that a grammar kind name denotes.
pub open spec fn kind_of_name(s: Seq<char>) -> NodeKind {
    if s == "function_call_expression"@ {
        NodeKind::FunctionCallExpression
    } else if s == "scoped_call_expression"@ {
        NodeKind::ScopedCallExpression
    } else if s == "name"@ {
        NodeKind::Name
    } else if s == "::"@ {
        NodeKind::ScopeResolution
    } else if s == "string_content"@ {
        NodeKind::StringContent
    } else {
        NodeKind::Other
    }
}

/// Map a grammar kind name to the crate's node kind.
fn kind_from_name(name: &String) -> (k: NodeKind)
    ensures
        k == kind_of_name(name@),
{
    if *name == String::from_str("function_call_expression") {
        NodeKind::FunctionCallExpression
    } else if *name == String::from_str("scoped_call_expression") {
        NodeKind::ScopedCallExpression
    } else if *name == String::from_str("name") {
        NodeKind::Name
    } else if *name == String::from_str("::") {
        NodeKind::ScopeResolution
    } else if *name == String::from_str("string_content") {
        NodeKind::StringContent
    } else {
        NodeKind::Other
    }
}

/// A cap on how many nodes one document's tree may copy; a parse whose tree
/// grows past it is rejected rather than looped over without bound.
pub const NODE_BUDGET: usize = 0x100_0000;

/// Build one model node from a parser node.
fn copy_node(n: &tree_sitter::Node, source: &str, parent: Option<usize>) -> (r: SyntaxNode)
    ensures
        r.parent == parent,
{
    let (srow, scol) = node_start_position(n);
    let (erow, ecol) = node_end_position(n);
    let a = node_start_byte(n);
    let b = node_end_byte(n);
    let name = node_kind_name(n);
    SyntaxNode {
        kind: kind_from_name(&name),
        start: Point { row: srow, column: scol },
        end: Point { row: erow, column: ecol },
        parent,
        text: text_slice(source, a, b),
    }
}

/// Push all children of `n` onto the walk stack, rightmost first, each
/// recorded as a child of the model node at `parent`.
fn push_children<'t>(
    n: &tree_sitter::Node<'t>,
    parent: usize,
    stack: &mut Vec<(tree_sitter::Node<'t>, usize)>,
)
    ensures
        final(stack)@.len() >= old(stack)@.len(),
        forall|k: int|
            0 <= k < old(stack)@.len() ==> final(stack)@[k] == old(stack)@[k],
        forall|k: int|
            old(stack)@.len() <= k < final(stack)@.len() ==> (#[trigger] final(stack)@[k]).1
                == parent,
{
    let count = node_child_count(n);
    let mut i = count;
    while i > 0
        invariant
            stack@.len() >= old(stack)@.len(),
            forall|k: int| 0 <= k < old(stack)@.len() ==> stack@[k] == old(stack)@[k],
            forall|k: int|
                old(stack)@.len() <= k < stack@.len() ==> (#[trigger] stack@[k]).1 == parent,
        decreases i,
    {
        i = i - 1;
        match node_child(n, i) {
            Some(c) => {
                stack.push((c, parent));
            },
            None => {},
        }
    }
}

/// One document's grammar adapter: owns the parser instance with the PHP
/// grammar already assigned.
pub struct GrammarAdapter {
    parser: tree_sitter::Parser,
}

impl GrammarAdapter {
    /// Create an adapter; fails only when the grammar cannot be assigned to
    /// the parser (adapter misconfiguration), never because of any source.
    pub fn new() -> Option<GrammarAdapter> {
        let language = php_language();
        let mut parser = parser_new();
        if parser_set_language(&mut parser, &language) {
            Some(GrammarAdapter { parser })
        } else {
            None
        }
    }

    /// Parse `text` from scratch and copy the resulting tree into the
    /// crate's model. Any tree that comes back is well-formed; `None` stands
    /// for a parser failure or a tree past the node budget.
    pub fn parse(&mut self, text: &str) -> (r: Option<SyntaxTree>)
        ensures
            r matches Some(t) ==> t.wf(),
    {
        let tree = match parser_parse(&mut self.parser, text) {
            Some(t) => t,
            None => {
                return None;
            },
        };
        let root = tree_root_node(&tree);
        let mut nodes: Vec<SyntaxNode> = Vec::new();
        nodes.push(copy_node(&root, text, None));
        let mut stack: Vec<(tree_sitter::Node, usize)> = Vec::new();
        push_children(&root, 0, &mut stack);
        let mut budget: usize = NODE_BUDGET;
        while budget > 0 && stack.len() > 0
            invariant
                nodes@.len() >= 1,
                nodes@.len() <= NODE_BUDGET,
                nodes@[0].parent is None,
                forall|i: int|
                    1 <= i < nodes@.len() ==> ((#[trigger] nodes@[i].parent) matches Some(p) && p
                        < i),
                forall|k: int| 0 <= k < stack@.len() ==> (#[trigger] stack@[k]).1 < nodes@.len(),
                budget + nodes@.len() >= 1,
            decreases budget,
        {
            let (n, parent) = match stack.pop() {
                Some(e) => e,
                None => {
                    break ;
                },
            };
            if nodes.len() >= NODE_BUDGET {
                return None;
            }
            nodes.push(copy_node(&n, text, Some(parent)));
            push_children(&n, nodes.len() - 1, &mut stack);
            budget = budget - 1;
        }
        if stack.len() > 0 {
            // the budget ran out with work left: reject rather than hand
            // back a truncated tree
            return None;
        }
        let t = SyntaxTree { nodes };
        proof {
            assert forall|i: int| 0 <= i < t@.len() implies #[trigger] wf_node(t@, i) by {
                assert(t@[i] == t.nodes@[i]@);
            }
        }
        Some(t)
    }
}

} // verus!
