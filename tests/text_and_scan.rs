use machinery_build::endpoint::{route_request, Routing, ServiceHeader};
use machinery_build::namespace::{namespace_path, take_segments};
use machinery_build::scan::{select_files, sort_texts, text_leq};
use machinery_build::text::{join_strings, split_on, without_prefix, without_suffix};

#[test]
fn split_and_join() {
    assert_eq!(split_on("a/b//c", '/'), vec!["a", "b", "", "c"]);
    assert_eq!(split_on("", '/'), vec![""]);
    let parts = vec!["x".to_string(), "y".to_string(), "z".to_string()];
    assert_eq!(join_strings(&parts, "::"), "x::y::z");
    assert_eq!(join_strings(&vec![], "::"), "");
}

#[test]
fn prefixes_and_suffixes() {
    assert_eq!(without_prefix("crate::api", "crate::"), "api");
    assert_eq!(without_prefix("api", "crate::"), "api");
    assert_eq!(without_suffix("lib.rs", ".rs"), "lib");
    assert_eq!(without_suffix("lib", ".rs"), "lib");
}

#[test]
fn namespace_segments() {
    assert_eq!(namespace_path("crate::api::greeting", "crate"), vec!["api", "greeting"]);
    assert_eq!(namespace_path("crate::api::greeting", "crate::api"), vec!["greeting"]);
    assert_eq!(namespace_path("other::x", "crate"), vec!["other", "x"]);
    let p = vec!["a".to_string(), "b".to_string()];
    assert_eq!(take_segments(&p, 1), vec!["a"]);
}

#[test]
fn texts_sort_by_code() {
    assert!(text_leq("a", "b"));
    assert!(text_leq("a", "ab"));
    assert!(!text_leq("b", "ab"));
    assert!(text_leq("same", "same"));
    let sorted = sort_texts(vec!["c".to_string(), "a".to_string(), "b".to_string(), "a".to_string()]);
    assert_eq!(sorted, vec!["a", "a", "b", "c"]);
}

#[test]
fn glob_selects_rust_files() {
    let found = vec![
        "./src/main.rs".to_string(),
        "./src/api/greeting.rs".to_string(),
        "./src/notes.md".to_string(),
    ];
    let chosen = select_files(found, "./**/*.rs");
    assert_eq!(chosen, vec!["./src/api/greeting.rs", "./src/main.rs"]);
    let none = select_files(vec!["./src/main.rs".to_string()], "*.txt");
    assert!(none.is_empty());
}

#[test]
fn endpoint_decisions() {
    match route_request(ServiceHeader::Missing) {
        Routing::Reply { status, body } => {
            assert_eq!(status, 400);
            assert_eq!(body, "{ \"error\": \"Missing service name\" }");
        }
        _ => panic!("expected a reply"),
    }
    match route_request(ServiceHeader::NotText) {
        Routing::Reply { status, body } => {
            assert_eq!(status, 400);
            assert_eq!(body, "{ \"error\": \"Invalid service name\" }");
        }
        _ => panic!("expected a reply"),
    }
    match route_request(ServiceHeader::Text("api::greeting::hello".to_string())) {
        Routing::Dispatch { call_key } => assert_eq!(call_key, "api::greeting::hello"),
        _ => panic!("expected a dispatch"),
    }
}
