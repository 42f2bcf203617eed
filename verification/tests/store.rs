use laralsp::buffer::Buffer;
use laralsp::document_state::DocumentState;
use laralsp::syntax_tree::Point;

fn open(src: &str) -> Buffer {
    Buffer::new(src.to_string()).unwrap()
}

#[test]
fn insert_and_get() {
    let mut store = DocumentState::new();
    store.insert_state("file:///a.php".to_string(), open("<?php route('h');"));
    store.insert_state("file:///b.php".to_string(), open("<?php table('x');"));

    let a = store.get_state(&"file:///a.php".to_string()).unwrap();
    assert_eq!(a.text, "<?php route('h');");
    let b = store.get_state(&"file:///b.php".to_string()).unwrap();
    assert_eq!(b.text, "<?php table('x');");
    assert!(store.get_state(&"file:///c.php".to_string()).is_none());
}

#[test]
fn insert_replaces_same_key() {
    let mut store = DocumentState::new();
    store.insert_state("file:///a.php".to_string(), open("<?php route('h');"));
    store.insert_state("file:///a.php".to_string(), open("<?php table('x');"));
    assert_eq!(store.documents.len(), 1);
    let a = store.get_state(&"file:///a.php".to_string()).unwrap();
    assert_eq!(a.text, "<?php table('x');");
}

#[test]
fn update_swaps_text_and_tree_together() {
    let mut store = DocumentState::new();
    let url = "file:///a.php".to_string();
    store.insert_state(url.clone(), open("<?php route('h');"));
    store.update_state(&url, "<?php table('h');".to_string());

    let b = store.get_state(&url).unwrap();
    assert_eq!(b.text, "<?php table('h');");
    assert_eq!(
        b.get_function_call(Point { row: 0, column: 13 }),
        Some("table".to_string())
    );
}

#[test]
fn update_unknown_document_changes_nothing() {
    let mut store = DocumentState::new();
    store.insert_state("file:///a.php".to_string(), open("<?php route('h');"));
    store.update_state(&"file:///missing.php".to_string(), "<?php 1;".to_string());
    assert_eq!(store.documents.len(), 1);
    let a = store.get_state(&"file:///a.php".to_string()).unwrap();
    assert_eq!(a.text, "<?php route('h');");
}

#[test]
fn remove_closes_document() {
    let mut store = DocumentState::new();
    let url = "file:///a.php".to_string();
    store.insert_state(url.clone(), open("<?php route('h');"));
    let removed = store.remove_state(&url).unwrap();
    assert_eq!(removed.text, "<?php route('h');");
    assert!(store.get_state(&url).is_none());
    assert!(store.remove_state(&url).is_none());
}
