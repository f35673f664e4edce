use machinery_build::analyzer::{analyze_file, file_location, parse_enum, parse_struct, MessageKind};
use machinery_build::dispatch::{route, service_keys, UNKNOWN_FUNCTION};
use machinery_build::pipeline;
use machinery_build::pipeline::{Artifacts, Error, Pipeline, SourceFile};
use machinery_build::source::{Field, Item, Param};

fn marker(name: &str) -> Vec<String> {
    vec!["machinery".to_string(), name.to_string()]
}

fn service(name: &str, params: &[(&str, &str)], output: Option<&str>) -> Item {
    Item::Function {
        attrs: vec![marker("service")],
        name: name.to_string(),
        params: params
            .iter()
            .map(|(p, t)| Param::Typed { pattern: p.to_string(), ty: t.to_string() })
            .collect(),
        output: output.map(|o| o.to_string()),
    }
}

fn enumeration(name: &str, variants: &[&str]) -> Item {
    Item::Enum {
        attrs: vec![marker("message")],
        name: name.to_string(),
        variants: variants.iter().map(|v| v.to_string()).collect(),
    }
}

fn record(name: &str, fields: &[(&str, &str)]) -> Item {
    Item::Struct {
        attrs: vec![marker("message")],
        name: name.to_string(),
        fields: fields
            .iter()
            .map(|(n, t)| Field { name: Some(n.to_string()), ty: t.to_string() })
            .collect(),
    }
}

fn file(path: &str, items: Vec<Item>) -> SourceFile {
    SourceFile { path: path.to_string(), items: Some(items) }
}

fn greeting_file() -> SourceFile {
    file(
        "./src/api/greeting.rs",
        vec![
            enumeration("Thing", &["A", "B", "C"]),
            record("Greeting", &[("message", "String"), ("thing", "Option < Thing >")]),
            service("hello", &[("message", "String")], Some("Greeting")),
        ],
    )
}

fn configured() -> Pipeline {
    pipeline::default("./src").export_to_dir("./bindings/")
}

fn build_ok(p: &Pipeline, sources: &Vec<SourceFile>) -> Artifacts {
    match p.build(sources) {
        Ok(a) => a,
        Err(e) => panic!("build failed: {}", e.message()),
    }
}

#[test]
fn round_trip_greeting() {
    let a = build_ok(&configured(), &vec![greeting_file()]);
    assert!(a.client.contains("export type Thing = \n\t\"A\" |\n\t\"B\" |\n\t\"C\";\n"));
    assert!(a
        .client
        .contains("export interface Greeting {\n\tmessage: String,\n\tthing: Option < Thing >,\n}\n"));
    let tree = "export function createClient(transport: Transport) {\n\treturn {\napi: {\ngreeting: {\nasync hello(message: String): Promise<Greeting> { return handleResult(await transport.send(\"api::greeting::hello\", JSON.stringify([message ?? null]))); },\n},\n},\n\t};\n};\n";
    assert!(a.client.ends_with(tree));
    assert!(a
        .dispatch
        .contains("\"api::greeting::hello\" => handle_api_greeting_hello(&ctx, json_input).await,"));
    assert!(a.dispatch.contains("let res_output = crate::api::greeting::hello(ctx, arg_message).await;"));
}

#[test]
fn unknown_key_routes_nowhere() {
    let p = configured();
    let sources = vec![greeting_file()];
    let a = build_ok(&p, &sources);
    let items = match greeting_file().items {
        Some(items) => items,
        None => vec![],
    };
    let analyzed = analyze_file(&items, "./src/api/greeting.rs").ok().unwrap();
    let keys = service_keys(&analyzed.services);
    assert_eq!(keys, vec!["api::greeting::hello".to_string()]);
    assert_eq!(route(&keys, "api::greeting::goodbye"), None);
    assert_eq!(route(&keys, "api::greeting::hello"), Some(0));
    assert_eq!(UNKNOWN_FUNCTION, "{ \"error\": \"Unknown function\" }");
    assert!(a.dispatch.contains(
        "            _ => return \"{ \\\"error\\\": \\\"Unknown function\\\" }\".to_owned(),"
    ));
}

#[test]
fn shared_namespace_is_one_node() {
    let sources = vec![
        greeting_file(),
        file("./src/api/user.rs", vec![service("whoami", &[], Some("String"))]),
    ];
    let a = build_ok(&configured(), &sources);
    assert_eq!(a.client.matches("api: {").count(), 1);
    assert!(a.client.contains("greeting: {\n"));
    assert!(a.client.contains("user: {\nasync whoami(): Promise<String> { return handleResult(await transport.send(\"api::user::whoami\", JSON.stringify([]))); },\n},\n"));
}

#[test]
fn client_and_dispatch_share_keys() {
    let sources = vec![
        greeting_file(),
        file("./src/api/user.rs", vec![service("whoami", &[], Some("String"))]),
    ];
    let a = build_ok(&configured(), &sources);
    for key in ["api::greeting::hello", "api::user::whoami"] {
        assert!(a.client.contains(&format!("transport.send(\"{}\"", key)));
        assert!(a.dispatch.contains(&format!("            \"{}\" => handle_", key)));
    }
}

#[test]
fn empty_enum_is_never() {
    let code = parse_enum("Nothing", &vec![]);
    assert_eq!(code, "export type Nothing = \nnever;\n");
    let one = parse_enum("One", &vec!["Only".to_string()]);
    assert_eq!(one, "export type One = \n\t\"Only\";\n");
}

#[test]
fn record_skips_positional_fields() {
    let fields = vec![
        Field { name: Some("id".to_string()), ty: "u32".to_string() },
        Field { name: None, ty: "String".to_string() },
    ];
    assert_eq!(parse_struct("User", &fields), "export interface User {\n\tid: u32,\n}\n");
}

#[test]
fn wrapper_without_parameters_does_not_decode() {
    let sources = vec![file("./src/api/greeting.rs", vec![service("say_hi", &[], Some("Result < Void >"))])];
    let a = build_ok(&configured(), &sources);
    assert!(!a.dispatch.contains("from_str"));
    assert!(a.dispatch.contains("_json_input: String"));
    assert!(a.dispatch.contains("let res_output = crate::api::greeting::say_hi(ctx).await;"));
}

#[test]
fn wrapper_with_parameters_fails_closed() {
    let a = build_ok(&configured(), &vec![greeting_file()]);
    let decode = a.dispatch.find("machinery::json::from_str(&json_input)").unwrap();
    let reject = a.dispatch.find("Failed to deserialize input").unwrap();
    let call = a.dispatch.find("crate::api::greeting::hello(ctx").unwrap();
    assert!(decode < reject && reject < call);
}

#[test]
fn rebuild_is_identical() {
    let p = pipeline::default("./src")
        .add_files("./**/*.rs", vec!["./src/b.rs".to_string(), "./src/a.rs".to_string(), "./src/c.txt".to_string()])
        .export_to_dir("./bindings/");
    let q = pipeline::default("./src")
        .add_files("./**/*.rs", vec!["./src/c.txt".to_string(), "./src/a.rs".to_string(), "./src/b.rs".to_string()])
        .export_to_dir("./bindings/");
    assert_eq!(p.files, vec!["./src/a.rs".to_string(), "./src/b.rs".to_string()]);
    assert_eq!(p.files, q.files);
    let first = build_ok(&p, &vec![greeting_file()]);
    let second = build_ok(&q, &vec![greeting_file()]);
    assert_eq!(first.client, second.client);
    assert_eq!(first.dispatch, second.dispatch);
}

#[test]
fn unparsed_file_stops_the_build() {
    let sources = vec![greeting_file(), SourceFile { path: "./src/bad.rs".to_string(), items: None }];
    match configured().build(&sources) {
        Err(Error::FailedToParseFile(p)) => assert_eq!(p, "./src/bad.rs"),
        _ => panic!("expected a parse failure"),
    }
}

#[test]
fn missing_export_dir_stops_the_build() {
    match pipeline::default("./src").build(&vec![greeting_file()]) {
        Err(Error::MissingExportDir) => {}
        _ => panic!("expected a missing export dir"),
    }
}

#[test]
fn duplicate_call_key_stops_the_build() {
    let sources = vec![greeting_file(), file("./src/api/greeting.rs", vec![service("hello", &[], None)])];
    match configured().build(&sources) {
        Err(Error::DuplicateServiceName(k)) => assert_eq!(k, "api::greeting::hello"),
        _ => panic!("expected a duplicate service name"),
    }
}

#[test]
fn message_marker_on_function_is_rejected() {
    let bad = Item::Function {
        attrs: vec![marker("message")],
        name: "oops".to_string(),
        params: vec![],
        output: None,
    };
    match configured().build(&vec![file("./src/api/bad.rs", vec![bad])]) {
        Err(Error::UnsupportedMessageShape(l)) => assert_eq!(l, "crate::api::bad"),
        _ => panic!("expected an unsupported message shape"),
    }
}

#[test]
fn location_from_path() {
    assert_eq!(file_location("./src/api/greeting.rs"), "crate::api::greeting");
    assert_eq!(file_location("src/lib.rs"), "crate::lib");
}

#[test]
fn unmarked_items_are_ignored() {
    let items = vec![
        Item::Function { attrs: vec![], name: "plain".to_string(), params: vec![], output: None },
        Item::Other { attrs: vec![marker("service")] },
        service("ping", &[], None),
    ];
    let r = analyze_file(&items, "./src/misc.rs").ok().unwrap();
    assert_eq!(r.services.len(), 1);
    assert_eq!(r.services[0].name, "ping");
    assert_eq!(r.services[0].return_type, "void");
    assert_eq!(r.services[0].location, "crate::misc");
    assert!(r.messages.is_empty());
}

#[test]
fn receiver_is_not_an_argument() {
    let item = Item::Function {
        attrs: vec![marker("service")],
        name: "m".to_string(),
        params: vec![
            Param::Receiver,
            Param::Typed { pattern: "x".to_string(), ty: "u8".to_string() },
        ],
        output: Some("u8".to_string()),
    };
    let r = analyze_file(&vec![item], "./src/m.rs").ok().unwrap();
    assert_eq!(r.services[0].arguments.len(), 1);
    assert_eq!(r.services[0].arguments[0].name, "x");
    assert_eq!(r.services[0].arguments[0].ty, "u8");
}

#[test]
fn message_kinds_are_recorded() {
    let r = analyze_file(&vec![enumeration("E", &["X"]), record("R", &[])], "./src/k.rs").ok().unwrap();
    assert_eq!(r.messages[0].kind, MessageKind::Enum);
    assert_eq!(r.messages[1].kind, MessageKind::Struct);
    assert_eq!(r.messages[1].code, "export interface R {\n}\n");
}

#[test]
fn introspection_serves_the_client() {
    let p = configured().enable_introspection();
    let a = build_ok(&p, &vec![greeting_file()]);
    assert!(a.dispatch.contains("std::fs::read_to_string(\"./bindings/index.ts\")"));
    assert!(a.dispatch.contains(
        "\"machinery_introspection::ts_client\" => handle_machinery_introspection_ts_client(&ctx, json_input).await,"
    ));
    assert!(a.client.contains("transport.send(\"machinery_introspection::ts_client\""));
    let plain = build_ok(&configured(), &vec![greeting_file()]);
    assert!(!plain.dispatch.contains("machinery_introspection"));
    assert!(!plain.client.contains("ts_client"));
}

#[test]
fn custom_text_and_types() {
    let p = configured()
        .with_custom_types(vec!["Custom = string"])
        .with_custom_header("/* custom header */")
        .with_custom_footer("/* custom_footer */");
    let a = build_ok(&p, &vec![greeting_file()]);
    assert!(a.client.starts_with("/* custom header */\nexport interface Transport {"));
    assert!(a.client.contains("export type bool = boolean;\nexport type Custom = string;\n"));
    assert!(a.client.ends_with("};\n/* custom_footer */"));
}

#[test]
fn debug_comment_lists_declarations() {
    let p = configured().enable_debug_comments();
    let a = build_ok(&p, &vec![greeting_file()]);
    assert!(a.client.starts_with(
        "/*\nservice api::greeting::hello(message: String) -> Greeting\nmessage crate::api::greeting::Thing\nmessage crate::api::greeting::Greeting\n*/\n"
    ));
}

#[test]
fn base_path_moves_namespaces() {
    let p = configured().with_base_crate_path("crate::api");
    let a = build_ok(&p, &vec![greeting_file()]);
    assert!(a.client.contains("\t\treturn {\ngreeting: {\nasync hello(") || a.client.contains("\treturn {\ngreeting: {\nasync hello("));
    assert!(a.client.contains("transport.send(\"api::greeting::hello\""));
    assert!(a.dispatch.contains("handle_greeting_hello("));
}

#[test]
fn error_messages() {
    assert_eq!(Error::MissingExportDir.message(), "Missing export dir");
    assert_eq!(
        Error::FailedToParseFile("a.rs".to_string()).message(),
        "Failed to parse file: a.rs"
    );
    assert_eq!(
        Error::FailedToWriteFile("index.ts".to_string()).message(),
        "Failed to write file: index.ts"
    );
}

#[test]
fn leading_context_is_not_an_argument() {
    let item = Item::Function {
        attrs: vec![marker("service")],
        name: "whoami".to_string(),
        params: vec![
            Param::Typed { pattern: "ctx".to_string(), ty: "& machinery :: context :: Context".to_string() },
            Param::Typed { pattern: "x".to_string(), ty: "u8".to_string() },
        ],
        output: None,
    };
    let r = analyze_file(&vec![item], "./src/m.rs").ok().unwrap();
    assert_eq!(r.services[0].arguments.len(), 1);
    assert_eq!(r.services[0].arguments[0].name, "x");
}
