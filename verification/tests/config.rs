use laralsp::laravel::project_config::ProjectConfig;
use laralsp::laravel::routes::Route;
use laralsp::laravel::tables::{Column, Table, Tables};

fn sample_config() -> ProjectConfig {
    let routes = vec![Route { name: Some("home".to_string()), method: "GET".to_string() }];
    ProjectConfig::new(routes, Tables { tables: Vec::new() })
}

/// Editing a non-watch-listed file never asks for a refresh, and deciding
/// leaves the snapshot version untouched.
#[test]
fn non_watch_listed_edit_triggers_nothing() {
    let config = sample_config();
    assert!(!config.should_update_config("/project/app/Models/User.php"));
    assert!(!config.should_update_config("app.php"));
    assert!(!config.should_update_config("/project/routes/web.php.bak"));
    assert!(!config.should_update_config(""));
    assert_eq!(config.version, 0);
    assert_eq!(config.routes.len(), 1);
}

/// Editing a watch-listed file asks for a refresh; a failed refresh leaves
/// the prior snapshot untouched, version included.
#[test]
fn watch_listed_edit_and_failed_refresh() {
    let mut config = sample_config();
    assert!(config.should_update_config("/project/routes/web.php"));
    assert!(config.should_update_config("web.php"));

    config.apply_refresh(None);
    assert_eq!(config.version, 0);
    assert_eq!(config.routes.len(), 1);
    assert_eq!(config.routes[0].name.as_deref(), Some("home"));
    assert_eq!(config.routes[0].method, "GET");
}

/// A successful refresh replaces the routes and moves the version on.
#[test]
fn successful_refresh_replaces_routes() {
    let mut config = sample_config();
    let new_routes = vec![
        Route { name: Some("about".to_string()), method: "GET".to_string() },
        Route { name: None, method: "POST".to_string() },
    ];
    config.apply_refresh(Some(new_routes));
    assert_eq!(config.version, 1);
    assert_eq!(config.routes.len(), 2);
    assert_eq!(config.routes[0].name.as_deref(), Some("about"));
}

/// The one-line descriptions.
#[test]
fn descriptions() {
    let r = Route { name: Some("home".to_string()), method: "GET".to_string() };
    assert_eq!(r.route_description(), "Method: GET");
    let t = Table { table: "users".to_string(), columns: None };
    assert_eq!(t.table_description(), "Table: users");
}

/// Columns come back exactly when they were loaded.
#[test]
fn table_columns() {
    let bare = Table { table: "users".to_string(), columns: None };
    assert!(bare.get_colums().is_none());

    let loaded = Table {
        table: "users".to_string(),
        columns: Some(vec![Column { name: "id".to_string() }]),
    };
    let cols = loaded.get_colums().unwrap();
    assert_eq!(cols.len(), 1);
    assert_eq!(cols[0].name, "id");
}
