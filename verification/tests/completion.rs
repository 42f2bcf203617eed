use laralsp::actions::completion::{get_completion_function, CandidateKind, ProviderId};
use laralsp::actions::snippets::snippets;
use laralsp::buffer::Buffer;
use laralsp::laravel::project_config::ProjectConfig;
use laralsp::laravel::routes::Route;
use laralsp::laravel::tables::{Table, Tables};
use laralsp::syntax_tree::{NodeKind, Point};
use laralsp::types::languages::HostLanguage;

fn config_with_home_route() -> ProjectConfig {
    let routes = vec![Route { name: Some("home".to_string()), method: "GET".to_string() }];
    ProjectConfig::new(routes, Tables { tables: Vec::new() })
}

/// The concrete scenario: `route('h')` with the cursor inside the quotes
/// and a cached route named `home` with method `GET` completes to exactly
/// one candidate labelled `home` whose detail describes the method.
#[test]
fn route_completion_scenario() {
    let b = Buffer::new("<?php route('h');".to_string()).unwrap();
    let config = config_with_home_route();
    let p = Point { row: 0, column: 13 };
    let out = b.complete(p, &config).expect("a contextual completion");
    assert_eq!(out.len(), 1);
    assert_eq!(out[0].label, "home");
    assert_eq!(out[0].detail, "Method: GET");
    assert_eq!(out[0].kind, CandidateKind::Folder);
    assert!(out[0].insert_text.is_none());
}

/// Unnamed routes are left out of the candidates.
#[test]
fn unnamed_routes_are_skipped() {
    let routes = vec![
        Route { name: None, method: "POST".to_string() },
        Route { name: Some("home".to_string()), method: "GET".to_string() },
    ];
    let config = ProjectConfig::new(routes, Tables { tables: Vec::new() });
    let b = Buffer::new("<?php route('h');".to_string()).unwrap();
    let out = b.complete(Point { row: 0, column: 13 }, &config).unwrap();
    assert_eq!(out.len(), 1);
    assert_eq!(out[0].label, "home");
}

/// `table('x')` completes from the cached tables.
#[test]
fn table_completion_scenario() {
    let tables = Tables {
        tables: vec![Table { table: "users".to_string(), columns: None }],
    };
    let config = ProjectConfig::new(Vec::new(), tables);
    let b = Buffer::new("<?php table('u');".to_string()).unwrap();
    let out = b.complete(Point { row: 0, column: 13 }, &config).unwrap();
    assert_eq!(out.len(), 1);
    assert_eq!(out[0].label, "users");
    assert_eq!(out[0].detail, "Table: users");
    assert_eq!(out[0].kind, CandidateKind::Property);
}

/// A cursor inside a comment, or inside no call at all, yields the full
/// static snippet list: never an empty answer, never an error.
#[test]
fn fallback_to_snippets() {
    let src = "<?php
// just a comment
$x = 1;
";
    let b = Buffer::new(src.to_string()).unwrap();
    let config = config_with_home_route();

    let in_comment = b.complete_or_snippets(Point { row: 1, column: 5 }, &config);
    assert_eq!(in_comment.len(), 1);
    assert_eq!(in_comment[0].label, "ctrler");
    assert_eq!(in_comment[0].kind, CandidateKind::Snippet);

    let no_call = b.complete_or_snippets(Point { row: 2, column: 2 }, &config);
    assert_eq!(no_call.len(), 1);
    assert_eq!(no_call[0].label, "ctrler");
}

/// A matched provider with an empty candidate list also falls back.
#[test]
fn empty_provider_falls_back() {
    let config = ProjectConfig::new(Vec::new(), Tables { tables: Vec::new() });
    let b = Buffer::new("<?php route('h');".to_string()).unwrap();
    let out = b.complete_or_snippets(Point { row: 0, column: 13 }, &config);
    assert_eq!(out.len(), 1);
    assert_eq!(out[0].label, "ctrler");
}

/// The rule table: known callees trigger only in a string argument, an
/// unknown callee or a missing leaf kind yields none.
#[test]
fn rule_table_lookup() {
    let lang = HostLanguage::Php;
    assert_eq!(
        get_completion_function(&lang, "route", Some(NodeKind::StringContent)),
        Some(ProviderId::Routes)
    );
    assert_eq!(
        get_completion_function(&lang, "table", Some(NodeKind::StringContent)),
        Some(ProviderId::Tables)
    );
    assert_eq!(get_completion_function(&lang, "route", Some(NodeKind::Other)), None);
    assert_eq!(get_completion_function(&lang, "route", None), None);
    assert_eq!(get_completion_function(&lang, "view", Some(NodeKind::StringContent)), None);
}

/// A known callee with the cursor outside a string argument does not
/// trigger the provider; the snippets answer instead.
#[test]
fn call_outside_string_falls_back() {
    let config = config_with_home_route();
    let b = Buffer::new("<?php route();".to_string()).unwrap();
    let out = b.complete_or_snippets(Point { row: 0, column: 12 }, &config);
    assert_eq!(out.len(), 1);
    assert_eq!(out[0].label, "ctrler");
}

/// The static snippet list itself.
#[test]
fn snippet_list() {
    let s = snippets();
    assert_eq!(s.len(), 1);
    assert_eq!(s[0].label, "ctrler");
    assert_eq!(s[0].detail, "Snippet");
    assert!(s[0].insert_text.contains("MyController"));
}
