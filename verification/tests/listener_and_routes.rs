use app_host::config::HostContext;
use app_host::listener::build_listener;
use app_host::routes::{build_route, RoutePlan};
use app_host::static_files::StaticFiles;
use app_host::web_app::WebApp;

fn context(work_dir: Option<&str>, index_html: Option<&str>) -> HostContext {
    HostContext {
        address: None,
        tls_key: None,
        tls_crt: None,
        shutdown_timeout_ms: None,
        work_dir: work_dir.map(|w| w.to_string()),
        index_html: index_html.map(|i| i.to_string()),
        block_name: "blog".to_string(),
    }
}

#[test]
fn plain_listener_without_tls_material() {
    let listener = build_listener(&"127.0.0.1:0".to_string(), &None, &None);
    assert!(!listener.is_tls());
}

#[test]
fn tls_listener_with_complete_material() {
    let listener =
        build_listener(&"127.0.0.1:0".to_string(), &Some(vec![1, 2, 3]), &Some(vec![4, 5]));
    assert!(listener.is_tls());
}

#[test]
fn partial_tls_material_falls_back_to_plain() {
    let address = "127.0.0.1:0".to_string();
    let key_only = build_listener(&address, &Some(vec![1]), &None);
    assert!(!key_only.is_tls());
    let cert_only = build_listener(&address, &None, &Some(vec![2]));
    assert!(!cert_only.is_tls());
}

#[test]
fn create_keeps_work_dir_and_index() {
    let app = StaticFiles::create(&context(Some("www"), Some("index.html")));
    assert_eq!(app.0, "www");
    assert_eq!(app.1, "blog");
    assert_eq!(app.2.as_deref(), Some("index.html"));
}

#[test]
fn create_without_work_dir_drops_index() {
    let app = StaticFiles::create(&context(None, Some("index.html")));
    assert_eq!(app.0, "");
    assert_eq!(app.1, "blog");
    assert_eq!(app.2, None);
}

#[test]
fn create_without_index_serves_directory() {
    let app = StaticFiles::create(&context(Some("www"), None));
    assert_eq!(app.0, "www");
    assert_eq!(app.2, None);
}

#[test]
fn route_plan_directory_under_block_prefix() {
    let app = StaticFiles("www".to_string(), "blog".to_string(), None);
    match app.route_plan() {
        RoutePlan::Directory { prefix, dir } => {
            assert_eq!(prefix, "/blog");
            assert_eq!(dir, "www");
        }
        other => panic!("expected a directory plan, got {:?}", other),
    }
}

#[test]
fn route_plan_index_file_joins_work_dir() {
    let app = StaticFiles("www".to_string(), "blog".to_string(), Some("index.html".to_string()));
    match app.route_plan() {
        RoutePlan::IndexFile { prefix, file } => {
            assert_eq!(prefix, "/blog");
            assert_eq!(file, "www/index.html");
        }
        other => panic!("expected an index-file plan, got {:?}", other),
    }
}

#[test]
fn routes_build_for_both_plans() {
    let mut dir_app = StaticFiles("www".to_string(), "blog".to_string(), None);
    let route = dir_app.routes();
    assert!(route.is_ok());
    assert_eq!(dir_app.0, "www");
    assert_eq!(dir_app.1, "blog");
    assert_eq!(dir_app.2, None);
    let mut index_app =
        StaticFiles("www".to_string(), "blog".to_string(), Some("index.html".to_string()));
    assert!(index_app.routes().is_ok());
    let built = build_route(&RoutePlan::Directory {
        prefix: "/d".to_string(),
        dir: ".".to_string(),
    });
    assert!(built.is_ok());
}

#[test]
fn rejected_prefix_is_an_error_not_a_panic() {
    // ':' marks a parameter capture in poem's router, which refuses it in a
    // nest path; a block named ":" therefore cannot be nested.
    let mut app = StaticFiles("www".to_string(), ":".to_string(), None);
    let route = app.routes();
    let error = route.err().expect("the capture marker must be rejected");
    assert_eq!(error.0, "invalid nest path: ':', '*' and '<' are not allowed");
    let wildcard = build_route(&RoutePlan::Directory {
        prefix: "/a*b".to_string(),
        dir: ".".to_string(),
    });
    assert!(wildcard.is_err());
}

#[test]
fn route_plan_join_follows_path_join_edges() {
    let empty_dir =
        StaticFiles("".to_string(), "blog".to_string(), Some("index.html".to_string()));
    match empty_dir.route_plan() {
        RoutePlan::IndexFile { file, .. } => assert_eq!(file, "index.html"),
        other => panic!("expected an index-file plan, got {:?}", other),
    }
    let absolute_index =
        StaticFiles("www".to_string(), "blog".to_string(), Some("/srv/index.html".to_string()));
    match absolute_index.route_plan() {
        RoutePlan::IndexFile { file, .. } => assert_eq!(file, "/srv/index.html"),
        other => panic!("expected an index-file plan, got {:?}", other),
    }
    let trailing_separator =
        StaticFiles("www/".to_string(), "blog".to_string(), Some("index.html".to_string()));
    match trailing_separator.route_plan() {
        RoutePlan::IndexFile { file, .. } => assert_eq!(file, "www/index.html"),
        other => panic!("expected an index-file plan, got {:?}", other),
    }
}

#[test]
fn default_is_empty() {
    let app = StaticFiles::default();
    assert_eq!(app.0, "");
    assert_eq!(app.1, "");
    assert_eq!(app.2, None);
}

#[test]
fn static_files_symbol_and_description() {
    assert_eq!(StaticFiles::symbol(), "static_files");
    assert_eq!(
        StaticFiles::description(),
        "Starts a static file server host for file directory specified by `work_dir`"
    );
}
