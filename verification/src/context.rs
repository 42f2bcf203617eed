//! The context resolver: walk from the node under the cursor outward through
//! its ancestors, stop at the first call expression, and classify the cursor
//! as standing inside that call. A plain call (`route(...)`) carries its
//! callee as a name child; a scoped call (`DB::table(...)`) carries it as the
//! name child standing right after the scope-resolution token, which keeps
//! the two shapes apart even when the callee names coincide.

use vstd::prelude::*;

use crate::syntax_tree::{
    node_at_spec, tree_wf, wf_node, NodeKind, NodeV, Point, PointV, SyntaxTree,
};

verus! {

broadcast use crate::syntax_tree::lemma_tree_view_index;

/// The structural shape of the enclosing call.
#[derive(Clone, Copy, PartialEq, Eq, Structural, Debug)]
pub enum CallForm {
    Plain,
    Scoped,
}

/// The classification of a cursor position.
pub enum Context {
    NoContext,
    CallContext { callee: String, form: CallForm, leaf_kind: NodeKind },
}

/// The mathematical value of a `Context`.
pub enum ContextV {
    NoContext,
    CallContext { callee: Seq<char>, form: CallForm, leaf_kind: NodeKind },
}

impl View for Context {
    type V = ContextV;

    open spec fn view(&self) -> ContextV {
        match self {
            Context::NoContext => ContextV::NoContext,
            Context::CallContext { callee, form, leaf_kind } => ContextV::CallContext {
                callee: callee@,
                form: *form,
                leaf_kind: *leaf_kind,
            },
        }
    }
}

/// Whether the node at `i` has one of the two call-expression kinds.
pub open spec fn is_call_shape(t: Seq<NodeV>, i: int) -> bool {
    t[i].kind == NodeKind::FunctionCallExpression || t[i].kind == NodeKind::ScopedCallExpression
}

/// The first node at or above `i` (through parent links) of call shape.
pub open spec fn first_call_ancestor(t: Seq<NodeV>, i: int) -> Option<int>
    decreases i,
    when tree_wf(t) && 0 <= i < t.len()
{
    if is_call_shape(t, i) {
        Some(i)
    } else {
        match t[i].parent {
            None => None,
            Some(p) => {
                proof {
                    assert(wf_node(t, i));
                }
                first_call_ancestor(t, p)
            },
        }
    }
}

/// The first child of `i` at or after `j` whose kind is `Name`.
pub open spec fn plain_callee_from(t: Seq<NodeV>, i: int, j: int) -> Option<int>
    decreases t.len() - j,
{
    if j < 0 || j >= t.len() {
        None
    } else if t[j].parent == Some(i) && t[j].kind == NodeKind::Name {
        Some(j)
    } else {
        plain_callee_from(t, i, j + 1)
    }
}

/// The first child of `i` at or after `j` whose kind is `Name` and whose
/// immediately preceding sibling (`prev` before `j`) is the scope-resolution
/// token.
pub open spec fn scoped_callee_from(t: Seq<NodeV>, i: int, j: int, prev: Option<int>) -> Option<
    int,
>
    decreases t.len() - j,
{
    if j < 0 || j >= t.len() {
        None
    } else if t[j].parent == Some(i) {
        if t[j].kind == NodeKind::Name && (prev matches Some(q) && t[q].kind
            == NodeKind::ScopeResolution) {
            Some(j)
        } else {
            scoped_callee_from(t, i, j + 1, Some(j))
        }
    } else {
        scoped_callee_from(t, i, j + 1, prev)
    }
}

/// The node holding the callee name of the call at `a`, if any.
pub open spec fn callee_node(t: Seq<NodeV>, a: int) -> Option<int> {
    if t[a].kind == NodeKind::FunctionCallExpression {
        plain_callee_from(t, a, a + 1)
    } else {
        scoped_callee_from(t, a, a + 1, None)
    }
}

/// The call form that a call node's kind denotes.
pub open spec fn form_of(k: NodeKind) -> CallForm {
    if k == NodeKind::FunctionCallExpression {
        CallForm::Plain
    } else {
        CallForm::Scoped
    }
}

/// Classify the leaf node at `leaf`: the first call-shaped ancestor wins; a
/// call-shaped ancestor without a callee name is an internal-invariant
/// failure and classifies as no context.
pub open spec fn context_of(t: Seq<NodeV>, leaf: int) -> ContextV {
    match first_call_ancestor(t, leaf) {
        None => ContextV::NoContext,
        Some(a) => match callee_node(t, a) {
            None => ContextV::NoContext,
            Some(nm) => ContextV::CallContext {
                callee: t[nm].text,
                form: form_of(t[a].kind),
                leaf_kind: t[leaf].kind,
            },
        },
    }
}

/// The classification of a cursor point: resolve the point to its leaf node,
/// then classify the leaf. A pure function of the tree and the point.
pub open spec fn resolve_context_spec(t: Seq<NodeV>, p: PointV) -> ContextV {
    match node_at_spec(t, p) {
        None => ContextV::NoContext,
        Some(leaf) => context_of(t, leaf),
    }
}

impl SyntaxTree {
    /// Find the first child of `i` at or after `j` of kind `Name`.
    fn plain_callee_scan(&self, i: usize, j: usize) -> (r: Option<usize>)
        ensures
            match r {
                Some(c) => Some(c as int) == plain_callee_from(self@, i as int, j as int),
                None => plain_callee_from(self@, i as int, j as int) is None,
            },
    {
        let n = self.nodes.len();
        let mut k = j;
        while k < n
            invariant
                n == self@.len(),
                j <= k,
                plain_callee_from(self@, i as int, j as int) == plain_callee_from(
                    self@,
                    i as int,
                    k as int,
                ),
            decreases n - k,
        {
            let is_hit = match self.nodes[k].parent {
                Some(q) => q == i && self.nodes[k].kind == NodeKind::Name,
                None => false,
            };
            if is_hit {
                return Some(k);
            }
            assert(plain_callee_from(self@, i as int, k as int) == plain_callee_from(
                self@,
                i as int,
                k + 1,
            ));
            k = k + 1;
        }
        None
    }

    /// Find the first child of `i` at or after `j` of kind `Name` whose
    /// previous sibling is the scope-resolution token.
    fn scoped_callee_scan(&self, i: usize, j: usize, prev0: Option<usize>) -> (r: Option<usize>)
        requires
            prev0 matches Some(q) ==> q < self@.len(),
        ensures
            ({
                let pv = match prev0 {
                    Some(q) => Some(q as int),
                    None => None,
                };
                match r {
                    Some(c) => Some(c as int) == scoped_callee_from(self@, i as int, j as int, pv),
                    None => scoped_callee_from(self@, i as int, j as int, pv) is None,
                }
            }),
    {
        let n = self.nodes.len();
        let mut k = j;
        let mut prev = prev0;
        while k < n
            invariant
                n == self@.len(),
                j <= k,
                prev matches Some(q) ==> q < n,
                ({
                    let pv0 = match prev0 {
                        Some(q) => Some(q as int),
                        None => None,
                    };
                    let pv = match prev {
                        Some(q) => Some(q as int),
                        None => None,
                    };
                    scoped_callee_from(self@, i as int, j as int, pv0) == scoped_callee_from(
                        self@,
                        i as int,
                        k as int,
                        pv,
                    )
                }),
            decreases n - k,
        {
            let is_child = match self.nodes[k].parent {
                Some(q) => q == i,
                None => false,
            };
            if is_child {
                let prev_is_scope = match prev {
                    Some(q) => self.nodes[q].kind == NodeKind::ScopeResolution,
                    None => false,
                };
                if self.nodes[k].kind == NodeKind::Name && prev_is_scope {
                    return Some(k);
                }
                prev = Some(k);
            }
            k = k + 1;
        }
        None
    }

    /// Walk from `leaf` outward and classify, following `context_of`.
    fn classify_from(&self, leaf: usize) -> (c: Context)
        requires
            self.wf(),
            leaf < self@.len(),
        ensures
            c@ == context_of(self@, leaf as int),
    {
        let leaf_kind = self.nodes[leaf].kind;
        let n = self.nodes.len();
        let mut cur = leaf;
        loop
            invariant
                self.wf(),
                n == self@.len(),
                cur < n,
                leaf < n,
                leaf_kind == self@[leaf as int].kind,
                first_call_ancestor(self@, cur as int) == first_call_ancestor(
                    self@,
                    leaf as int,
                ),
            decreases cur,
        {
            let k = self.nodes[cur].kind;
            if k == NodeKind::FunctionCallExpression {
                match self.plain_callee_scan(cur, cur + 1) {
                    Some(nm) => {
                        proof {
                            lemma_plain_callee_bounds(self@, cur as int, cur + 1, nm as int);
                            assert(first_call_ancestor(self@, cur as int) == Some(cur as int));
                        }
                        return Context::CallContext {
                            callee: self.nodes[nm].text.clone(),
                            form: CallForm::Plain,
                            leaf_kind,
                        };
                    },
                    None => {
                        return Context::NoContext;
                    },
                }
            } else if k == NodeKind::ScopedCallExpression {
                match self.scoped_callee_scan(cur, cur + 1, None) {
                    Some(nm) => {
                        proof {
                            lemma_scoped_callee_bounds(self@, cur as int, cur + 1, None, nm as int);
                            assert(first_call_ancestor(self@, cur as int) == Some(cur as int));
                        }
                        return Context::CallContext {
                            callee: self.nodes[nm].text.clone(),
                            form: CallForm::Scoped,
                            leaf_kind,
                        };
                    },
                    None => {
                        return Context::NoContext;
                    },
                }
            } else {
                match self.nodes[cur].parent {
                    None => {
                        return Context::NoContext;
                    },
                    Some(p) => {
                        proof {
                            assert(wf_node(self@, cur as int));
                            assert(first_call_ancestor(self@, cur as int) == first_call_ancestor(
                                self@,
                                p as int,
                            ));
                        }
                        cur = p;
                    },
                }
            }
        }
    }

    /// Resolve a cursor point to its classification: a pure function of the
    /// tree and the point, performing no I/O and mutating nothing.
    pub fn resolve_context(&self, p: Point) -> (c: Context)
        requires
            self.wf(),
        ensures
            c@ == resolve_context_spec(self@, p@),
    {
        match self.node_at(p) {
            None => Context::NoContext,
            Some(leaf) => self.classify_from(leaf),
        }
    }
}

/// Classification is a pure function of (tree, point): any two results
/// obtained for the same tree and the same point are the same, so running
/// the resolver twice, or re-running it after re-parsing identical text
/// into an identical tree, can never change the answer.
pub proof fn lemma_classification_deterministic(
    c1: ContextV,
    c2: ContextV,
    t: Seq<NodeV>,
    p: PointV,
)
    requires
        c1 == resolve_context_spec(t, p),
        c2 == resolve_context_spec(t, p),
    ensures
        c1 == c2,
{
}

/// `a` stands on the parent chain of `i`, `i` itself counted.
pub open spec fn on_chain(t: Seq<NodeV>, i: int, a: int) -> bool
    decreases i,
    when tree_wf(t) && 0 <= i < t.len()
{
    i == a || (match t[i].parent {
        None => false,
        Some(p) => {
            proof {
                assert(wf_node(t, i));
            }
            on_chain(t, p, a)
        },
    })
}

/// A chain ancestor never stands after the node itself.
pub proof fn lemma_on_chain_le(t: Seq<NodeV>, i: int, a: int)
    requires
        tree_wf(t),
        0 <= i < t.len(),
        on_chain(t, i, a),
    ensures
        0 <= a <= i,
    decreases i,
{
    if i == a {
    } else {
        assert(wf_node(t, i));
        match t[i].parent {
            None => {},
            Some(p) => {
                lemma_on_chain_le(t, p, a);
            },
        }
    }
}

/// The first call ancestor is itself call-shaped and stands on the chain.
pub proof fn lemma_fca_props(t: Seq<NodeV>, i: int, a: int)
    requires
        tree_wf(t),
        0 <= i < t.len(),
        first_call_ancestor(t, i) == Some(a),
    ensures
        0 <= a <= i,
        is_call_shape(t, a),
        on_chain(t, i, a),
    decreases i,
{
    if is_call_shape(t, i) {
    } else {
        assert(wf_node(t, i));
        match t[i].parent {
            None => {},
            Some(p) => {
                lemma_fca_props(t, p, a);
            },
        }
    }
}

/// The walk from a node that has a call-shaped chain ancestor stops at one.
pub proof fn lemma_walk_stops_at_call(t: Seq<NodeV>, leaf: int, c: int)
    requires
        tree_wf(t),
        0 <= leaf < t.len(),
        on_chain(t, leaf, c),
        is_call_shape(t, c),
    ensures
        first_call_ancestor(t, leaf) matches Some(a) && on_chain(t, leaf, a) && on_chain(t, a, c),
    decreases leaf,
{
    if is_call_shape(t, leaf) {
    } else {
        assert(wf_node(t, leaf));
        match t[leaf].parent {
            None => {
                assert(leaf == c);
            },
            Some(p) => {
                assert(leaf != c);
                lemma_walk_stops_at_call(t, p, c);
                let a = first_call_ancestor(t, p)->Some_0;
                lemma_on_chain_le(t, p, a);
            },
        }
    }
}

/// Innermost-call precedence: when the cursor's node has two call-shaped
/// ancestors, the nearer (`inner`) strictly below the farther (`outer`),
/// the walk settles on a node at or below `inner` and never on `outer`; the
/// classification's callee is therefore taken from the innermost enclosing
/// call, not the outer one.
pub proof fn lemma_innermost_call_wins(t: Seq<NodeV>, leaf: int, inner: int, outer: int)
    requires
        tree_wf(t),
        0 <= leaf < t.len(),
        on_chain(t, leaf, inner),
        is_call_shape(t, inner),
        on_chain(t, inner, outer),
        outer != inner,
    ensures
        first_call_ancestor(t, leaf) matches Some(a) && a != outer && on_chain(t, a, inner),
{
    lemma_walk_stops_at_call(t, leaf, inner);
    let a = first_call_ancestor(t, leaf)->Some_0;
    lemma_on_chain_le(t, leaf, a);
    lemma_on_chain_le(t, a, inner);
    lemma_on_chain_le(t, inner, outer);
}

/// Plain and scoped calls are never conflated: a classification carries the
/// form `Plain` exactly when the winning ancestor is a plain call
/// expression, and `Scoped` exactly when it is a scoped call expression,
/// whatever the callee names are.
pub proof fn lemma_call_form_discriminates(t: Seq<NodeV>, p: PointV)
    requires
        tree_wf(t),
    ensures
        resolve_context_spec(t, p) matches ContextV::CallContext { callee, form, leaf_kind } ==> (
        node_at_spec(t, p) matches Some(l) && first_call_ancestor(t, l) matches Some(a) && (form
            == CallForm::Plain <==> t[a].kind == NodeKind::FunctionCallExpression) && (form
            == CallForm::Scoped <==> t[a].kind == NodeKind::ScopedCallExpression)),
{
    if resolve_context_spec(t, p) is CallContext {
        let l = node_at_spec(t, p)->Some_0;
        crate::syntax_tree::lemma_descend_props(t, 0, p);
        let a = first_call_ancestor(t, l)->Some_0;
        lemma_fca_props(t, l, a);
    }
}

/// The result of the plain-callee scan is a name child of `i`.
pub proof fn lemma_plain_callee_bounds(t: Seq<NodeV>, i: int, j: int, c: int)
    requires
        plain_callee_from(t, i, j) == Some(c),
    ensures
        j <= c < t.len(),
        t[c].parent == Some(i),
        t[c].kind == NodeKind::Name,
    decreases t.len() - j,
{
    if j < 0 || j >= t.len() {
    } else if t[j].parent == Some(i) && t[j].kind == NodeKind::Name {
    } else {
        lemma_plain_callee_bounds(t, i, j + 1, c);
    }
}

/// The result of the scoped-callee scan is a name child of `i`.
pub proof fn lemma_scoped_callee_bounds(t: Seq<NodeV>, i: int, j: int, prev: Option<int>, c: int)
    requires
        scoped_callee_from(t, i, j, prev) == Some(c),
    ensures
        j <= c < t.len(),
        t[c].parent == Some(i),
        t[c].kind == NodeKind::Name,
    decreases t.len() - j,
{
    if j < 0 || j >= t.len() {
    } else if t[j].parent == Some(i) {
        if t[j].kind == NodeKind::Name && (prev matches Some(q) && t[q].kind
            == NodeKind::ScopeResolution) {
        } else {
            lemma_scoped_callee_bounds(t, i, j + 1, Some(j), c);
        }
    } else {
        lemma_scoped_callee_bounds(t, i, j + 1, prev, c);
    }
}

} // verus!
