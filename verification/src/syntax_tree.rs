//! The document's syntax tree, modelled as a flat vector of nodes in
//! pre-order, each carrying its kind, its source range in points, its source
//! text and the index of its parent. Point-to-node resolution descends from
//! the root into the first child whose range contains the point.

use vstd::prelude::*;

verus! {

/// A zero-based position in a multi-line document.
#[derive(Clone, Copy, PartialEq, Eq, Structural, Debug)]
pub struct Point {
    pub row: usize,
    pub column: usize,
}

/// The mathematical value of a `Point`.
pub struct PointV {
    pub row: int,
    pub column: int,
}

impl View for Point {
    type V = PointV;

    open spec fn view(&self) -> PointV {
        PointV { row: self.row as int, column: self.column as int }
    }
}

/// The syntactic kinds that the completion logic distinguishes. Every other
/// kind of the grammar is mapped to `Other`.
#[derive(Clone, Copy, PartialEq, Eq, Structural, Debug)]
pub enum NodeKind {
    FunctionCallExpression,
    ScopedCallExpression,
    Name,
    ScopeResolution,
    StringContent,
    Other,
}

/// One node of a syntax tree: its kind, its source range, the exact source
/// slice it spans, and the index of its parent node (`None` only for the
/// root).
pub struct SyntaxNode {
    pub kind: NodeKind,
    pub start: Point,
    pub end: Point,
    pub parent: Option<usize>,
    pub text: String,
}

/// The mathematical value of a `SyntaxNode`.
pub struct NodeV {
    pub kind: NodeKind,
    pub start: PointV,
    pub end: PointV,
    pub parent: Option<int>,
    pub text: Seq<char>,
}

impl View for SyntaxNode {
    type V = NodeV;

    open spec fn view(&self) -> NodeV {
        NodeV {
            kind: self.kind,
            start: self.start@,
            end: self.end@,
            parent: match self.parent {
                Some(p) => Some(p as int),
                None => None,
            },
            text: self.text@,
        }
    }
}

/// A whole tree: the nodes in pre-order, node 0 being the root.
pub struct SyntaxTree {
    pub nodes: Vec<SyntaxNode>,
}

impl View for SyntaxTree {
    type V = Seq<NodeV>;

    open spec fn view(&self) -> Seq<NodeV> {
        self.nodes@.map_values(|n: SyntaxNode| n@)
    }
}

/// The view of a tree indexes to the view of the node.
pub broadcast proof fn lemma_tree_view_index(t: &SyntaxTree, i: int)
    requires
        0 <= i < t@.len(),
    ensures
        #[trigger] t@[i] == t.nodes@[i]@,
{
}

/// Well-formedness of one node: the root has no parent, every other node's
/// parent stands strictly before it.
pub open spec fn wf_node(t: Seq<NodeV>, i: int) -> bool {
    if i == 0 {
        t[i].parent is None
    } else {
        t[i].parent matches Some(p) && 0 <= p < i
    }
}

/// Well-formedness of a tree: non-empty, and every node well-formed.
pub open spec fn tree_wf(t: Seq<NodeV>) -> bool {
    &&& t.len() >= 1
    &&& forall|i: int| 0 <= i < t.len() ==> #[trigger] wf_node(t, i)
}

/// Lexicographic order on points.
pub open spec fn point_le(a: PointV, b: PointV) -> bool {
    a.row < b.row || (a.row == b.row && a.column <= b.column)
}

/// Strict lexicographic order on points.
pub open spec fn point_lt(a: PointV, b: PointV) -> bool {
    a.row < b.row || (a.row == b.row && a.column < b.column)
}

/// A node's range contains a point. Ranges are half-open (the start is in,
/// the end is out), as the grammar reports them, so the ranges of adjacent
/// siblings do not overlap and a point on their boundary belongs to the
/// node that starts there.
pub open spec fn node_contains(t: Seq<NodeV>, i: int, p: PointV) -> bool {
    point_le(t[i].start, p) && point_lt(p, t[i].end)
}

/// The first index `c >= j` that is a child of `i` and contains `p`.
pub open spec fn first_containing_child(t: Seq<NodeV>, i: int, p: PointV, j: int) -> Option<int>
    decreases t.len() - j,
{
    if j < 0 || j >= t.len() {
        None
    } else if t[j].parent == Some(i) && node_contains(t, j, p) {
        Some(j)
    } else {
        first_containing_child(t, i, p, j + 1)
    }
}

pub proof fn lemma_first_containing_child(t: Seq<NodeV>, i: int, p: PointV, j: int, c: int)
    requires
        first_containing_child(t, i, p, j) == Some(c),
    ensures
        j <= c < t.len(),
        t[c].parent == Some(i),
        node_contains(t, c, p),
    decreases t.len() - j,
{
    if j < 0 || j >= t.len() {
    } else if t[j].parent == Some(i) && node_contains(t, j, p) {
    } else {
        lemma_first_containing_child(t, i, p, j + 1, c);
    }
}

/// Descend from node `i` into the first containing child, repeatedly, until
/// no child of the current node contains `p` any more.
pub open spec fn descend(t: Seq<NodeV>, i: int, p: PointV) -> int
    decreases t.len() - i,
    when tree_wf(t) && 0 <= i < t.len()
{
    match first_containing_child(t, i, p, i + 1) {
        None => i,
        Some(c) => {
            proof {
                lemma_first_containing_child(t, i, p, i + 1, c);
            }
            descend(t, c, p)
        },
    }
}

/// The most specific node whose range contains `p`: none if the point lies
/// outside the root's range, otherwise the result of descending from the
/// root.
pub open spec fn node_at_spec(t: Seq<NodeV>, p: PointV) -> Option<int> {
    if t.len() >= 1 && node_contains(t, 0, p) {
        Some(descend(t, 0, p))
    } else {
        None
    }
}

/// The result of the descent is a containing node none of whose children
/// contains the point, and it stands at or after the start node.
pub proof fn lemma_descend_props(t: Seq<NodeV>, i: int, p: PointV)
    requires
        tree_wf(t),
        0 <= i < t.len(),
        node_contains(t, i, p),
    ensures
        i <= descend(t, i, p) < t.len(),
        node_contains(t, descend(t, i, p), p),
        first_containing_child(t, descend(t, i, p), p, descend(t, i, p) + 1) is None,
    decreases t.len() - i,
{
    match first_containing_child(t, i, p, i + 1) {
        None => {},
        Some(c) => {
            lemma_first_containing_child(t, i, p, i + 1, c);
            lemma_descend_props(t, c, p);
        },
    }
}

/// Point resolution is a pure function of (tree, point): any two results
/// obtained for equal trees and equal points are the same, however often
/// the resolution is re-run.
pub proof fn lemma_resolution_deterministic(
    r1: Option<int>,
    r2: Option<int>,
    t: Seq<NodeV>,
    p: PointV,
)
    requires
        r1 == node_at_spec(t, p),
        r2 == node_at_spec(t, p),
    ensures
        r1 == r2,
{
}

impl SyntaxTree {
    /// Well-formedness of the whole tree.
    pub open spec fn wf(&self) -> bool {
        tree_wf(self@)
    }

    /// The number of nodes.
    pub fn node_count(&self) -> (n: usize)
        ensures
            n == self@.len(),
    {
        self.nodes.len()
    }

    /// The kind of the node at `i`.
    pub fn kind_of(&self, i: usize) -> (k: NodeKind)
        requires
            i < self@.len(),
        ensures
            k == self@[i as int].kind,
    {
        self.nodes[i].kind
    }

    /// The parent index of the node at `i`.
    pub fn parent_of(&self, i: usize) -> (r: Option<usize>)
        requires
            i < self@.len(),
        ensures
            self@[i as int].parent matches Some(p) ==> (r matches Some(q) && q == p),
            self@[i as int].parent is None ==> r is None,
    {
        self.nodes[i].parent
    }

    /// The source slice the node at `i` spans.
    pub fn node_text(&self, i: usize) -> (r: String)
        requires
            i < self@.len(),
        ensures
            r@ == self@[i as int].text,
    {
        self.nodes[i].text.clone()
    }

    /// Whether the range of the node at `i` contains `p`.
    fn contains_point(&self, i: usize, p: Point) -> (r: bool)
        requires
            i < self@.len(),
        ensures
            r == node_contains(self@, i as int, p@),
    {
        let n = &self.nodes[i];
        let after_start = n.start.row < p.row || (n.start.row == p.row && n.start.column <= p.column);
        let before_end = p.row < n.end.row || (p.row == n.end.row && p.column < n.end.column);
        after_start && before_end
    }

    /// Find the first child of `i` at or after `j` whose range contains `p`.
    fn first_containing_child_from(&self, i: usize, j: usize, p: Point) -> (r: Option<usize>)
        requires
            i < self@.len(),
        ensures
            match r {
                Some(c) => Some(c as int) == first_containing_child(self@, i as int, p@, j as int),
                None => first_containing_child(self@, i as int, p@, j as int) is None,
            },
    {
        let n = self.nodes.len();
        let mut k = j;
        while k < n
            invariant
                n == self@.len(),
                i < n,
                j <= k,
                first_containing_child(self@, i as int, p@, j as int) == first_containing_child(
                    self@,
                    i as int,
                    p@,
                    k as int,
                ),
            decreases n - k,
        {
            let is_child = match self.nodes[k].parent {
                Some(q) => q == i,
                None => false,
            };
            if is_child && self.contains_point(k, p) {
                return Some(k);
            }
            assert(first_containing_child(self@, i as int, p@, k as int)
                == first_containing_child(self@, i as int, p@, k + 1));
            k = k + 1;
        }
        None
    }

    /// Resolve a point to the most specific node whose range contains it;
    /// none if the point lies outside the root's range.
    pub fn node_at(&self, p: Point) -> (r: Option<usize>)
        requires
            self.wf(),
        ensures
            match r {
                Some(i) => Some(i as int) == node_at_spec(self@, p@) && i < self@.len(),
                None => node_at_spec(self@, p@) is None,
            },
    {
        if !self.contains_point(0, p) {
            return None;
        }
        let n = self.nodes.len();
        let mut cur: usize = 0;
        loop
            invariant
                self.wf(),
                n == self@.len(),
                cur < n,
                node_contains(self@, 0, p@),
                descend(self@, cur as int, p@) == descend(self@, 0, p@),
            decreases n - cur,
        {
            match self.first_containing_child_from(cur, cur + 1, p) {
                None => {
                    return Some(cur);
                },
                Some(c) => {
                    proof {
                        lemma_first_containing_child(self@, cur as int, p@, cur + 1, c as int);
                    }
                    cur = c;
                },
            }
        }
    }
}

} // verus!
