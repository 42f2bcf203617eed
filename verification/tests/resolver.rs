use laralsp::buffer::Buffer;
use laralsp::context::{CallForm, Context};
use laralsp::syntax_tree::{NodeKind, Point};

/// Re-running parse and resolution on identical inputs yields identical
/// results.
#[test]
fn resolution_is_deterministic() {
    let src = "<?php route('h');";
    let b1 = Buffer::new(src.to_string()).unwrap();
    let b2 = Buffer::new(src.to_string()).unwrap();
    for column in 0..17usize {
        let p = Point { row: 0, column };
        assert_eq!(b1.get_node_at_point(p), b2.get_node_at_point(p));
        assert_eq!(b1.get_function_call(p), b2.get_function_call(p));
    }
}

/// Every point within the text's extent resolves to a node or none, and a
/// point outside the document resolves to none.
#[test]
fn resolution_covers_extent() {
    let src = "<?php route('h');";
    let b = Buffer::new(src.to_string()).unwrap();
    for column in 0..17usize {
        let p = Point { row: 0, column };
        assert!(b.get_node_at_point(p).is_some());
    }
    assert_eq!(b.get_node_at_point(Point { row: 9, column: 0 }), None);
}

/// Ranges are half-open: a point on the boundary between two adjacent
/// tokens belongs to the token that starts there, and the document's end
/// position lies outside every node.
#[test]
fn boundary_points_belong_to_the_next_token() {
    let src = "<?php route('h');";
    let b = Buffer::new(src.to_string()).unwrap();
    // column 11 ends the callee name and starts the parenthesis
    let leaf = b.get_node_at_point(Point { row: 0, column: 11 }).unwrap();
    assert_eq!(b.tree.node_text(leaf), "(");
    assert_eq!(b.tree.kind_of(leaf), NodeKind::Other);
    assert!(b.tree.node_count() > 0);
    // the end of the document is outside the root's range
    assert!(b.get_node_at_point(Point { row: 0, column: 17 }).is_none());
}

/// Classifying the same (tree, point) twice yields the same classification.
#[test]
fn classification_is_idempotent() {
    let src = "<?php table('x');";
    let b = Buffer::new(src.to_string()).unwrap();
    let p = Point { row: 0, column: 13 };
    let c1 = b.resolve_context(p);
    let c2 = b.resolve_context(p);
    match (c1, c2) {
        (
            Context::CallContext { callee: n1, form: f1, leaf_kind: k1 },
            Context::CallContext { callee: n2, form: f2, leaf_kind: k2 },
        ) => {
            assert_eq!(n1, n2);
            assert_eq!(f1, f2);
            assert_eq!(k1, k2);
        },
        (Context::NoContext, Context::NoContext) => {},
        _ => panic!("the two classifications differ"),
    }
}

/// After an edit the answer comes from the new tree, never the old one.
#[test]
fn resolution_after_edit_reads_new_tree() {
    let mut b = Buffer::new("<?php route('h');".to_string()).unwrap();
    let p = Point { row: 0, column: 13 };
    assert_eq!(b.get_function_call(p), Some("route".to_string()));
    let ok = b.apply_edit("<?php table('h');".to_string());
    assert!(ok);
    assert_eq!(b.text, "<?php table('h');");
    assert_eq!(b.get_function_call(p), Some("table".to_string()));
}

/// A cursor nested in two calls resolves to the inner callee.
#[test]
fn innermost_call_wins() {
    let src = "<?php route(table('x'));";
    let b = Buffer::new(src.to_string()).unwrap();
    let p = Point { row: 0, column: 20 };
    assert_eq!(b.get_function_call(p), Some("table".to_string()));
}

/// `table('x')` is a plain call; `DB::table('x')` is a scoped call; the
/// callee name is `table` both times and the forms stay apart.
#[test]
fn plain_and_scoped_calls_stay_apart() {
    let plain = Buffer::new("<?php table('x');".to_string()).unwrap();
    match plain.resolve_context(Point { row: 0, column: 13 }) {
        Context::CallContext { callee, form, leaf_kind } => {
            assert_eq!(callee, "table");
            assert_eq!(form, CallForm::Plain);
            assert_eq!(leaf_kind, NodeKind::StringContent);
        },
        Context::NoContext => panic!("expected a call context"),
    }

    let scoped = Buffer::new("<?php DB::table('x');".to_string()).unwrap();
    match scoped.resolve_context(Point { row: 0, column: 17 }) {
        Context::CallContext { callee, form, leaf_kind } => {
            assert_eq!(callee, "table");
            assert_eq!(form, CallForm::Scoped);
            assert_eq!(leaf_kind, NodeKind::StringContent);
        },
        Context::NoContext => panic!("expected a call context"),
    }
}

/// A call with empty arguments still classifies when the cursor stands
/// inside the argument parentheses (both range bounds count as inside).
#[test]
fn empty_arguments_still_classify() {
    let b = Buffer::new("<?php route();".to_string()).unwrap();
    let p = Point { row: 0, column: 12 };
    assert_eq!(b.get_function_call(p), Some("route".to_string()));
}

/// No scope analysis exists yet: no variable list ever comes back.
#[test]
fn variables_in_scope_is_none() {
    let b = Buffer::new("<?php $x = 1;".to_string()).unwrap();
    assert!(b.get_variables_in_scope(Point { row: 0, column: 7 }).is_none());
}
