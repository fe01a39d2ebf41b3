use blast::arsenal::mcp::{
    dispatch, error_code, layer_matches, tool_describe, tool_list, tool_named, tool_search, Reply, Tool, METHOD_NOT_FOUND,
    SERVER_NAME,
};
use blast::arsenal::scanner::{
    collapse_whitespace, collect_layers, derive_module_path, detect_side_effects, extract_doc, file_entries,
    is_indexed_file, is_rust_file, method_from_verb, module_path_label, route_layers, routes_in_file, scanned_layers,
    sort_entries_by_fqn,
    sort_routes, ArsenalReport, Entry, FnItem, LineLookup, RouteEntry,
};
use blast::error::BlastError;

fn entry(module: &str, name: &str, fqn: &str, doc: &str, effect: &str, path: &str, line: usize) -> Entry {
    Entry {
        module: module.to_string(),
        name: name.to_string(),
        fqn: fqn.to_string(),
        signature: format!("pub fn {name}()"),
        doc: doc.to_string(),
        side_effects: vec![effect.to_string()],
        origin: "custom".to_string(),
        path: path.to_string(),
        line,
    }
}

fn fixture() -> ArsenalReport {
    ArsenalReport {
        generated_at: "2026-04-25T00:00:00Z".to_string(),
        layers: vec![
            (
                "flows".to_string(),
                vec![entry("auth", "login", "flows::auth::login", "Authenticates a user.", "db", "flows/auth.rs", 5)],
            ),
            (
                "services".to_string(),
                vec![entry("email", "send", "services::email::send", "Sends mail.", "net", "services/email.rs", 1)],
            ),
        ],
        routes: vec![RouteEntry {
            method: "POST".to_string(),
            path: "/auth/login".to_string(),
            flow: "login".to_string(),
            source: "routes/auth.rs".to_string(),
        }],
    }
}

fn item(name: &str, tokens: &str, docs: &[&str], is_pub: bool) -> FnItem {
    FnItem {
        name: name.to_string(),
        signature_tokens: tokens.to_string(),
        docs: docs.iter().map(|d| d.to_string()).collect(),
        is_pub,
    }
}

#[test]
fn initialize_returns_server_info() {
    assert_eq!(dispatch(Some("initialize"), false), Reply::Initialize);
    assert_eq!(SERVER_NAME, "blast-arsenal");
}

#[test]
fn tools_list_advertises_four_tools() {
    assert_eq!(dispatch(Some("tools/list"), false), Reply::ToolsList);
    let names = ["list", "search", "describe", "routes"];
    let tools: Vec<Tool> = names.iter().map(|n| tool_named(Some(n)).expect("known tool")).collect();
    assert_eq!(tools, vec![Tool::List, Tool::Search, Tool::Describe, Tool::Routes]);
    match tool_named(Some("nope")) {
        Err(BlastError::Invalid(m)) => assert_eq!(m, "unknown tool: nope"),
        _ => panic!("expected unknown tool"),
    }
}

#[test]
fn tool_search_finds_entries() {
    let report = fixture();
    let hits = tool_search(&report, Some("mail")).expect("search");
    assert_eq!(hits, vec![(1, 0)]);
    assert_eq!(tool_search(&report, Some("USER")).expect("search"), vec![(0, 0)]);
    assert!(matches!(tool_search(&report, None), Err(BlastError::Invalid(_))));
}

#[test]
fn tool_describe_returns_entry() {
    let report = fixture();
    let (i, j) = tool_describe(&report, Some("flows::auth::login")).expect("describe");
    assert_eq!(report.layers[i].1[j].name, "login");
}

#[test]
fn tool_describe_unknown_fqn_errors() {
    let report = fixture();
    match tool_describe(&report, Some("nope::nope")) {
        Err(BlastError::NotFound(f)) => assert_eq!(f, "nope::nope"),
        _ => panic!("expected not found"),
    }
}

#[test]
fn tool_routes_returns_routes() {
    let report = fixture();
    assert_eq!(tool_named(Some("routes")).expect("routes"), Tool::Routes);
    assert_eq!(report.routes.len(), 1);
}

#[test]
fn unknown_method_returns_jsonrpc_error() {
    assert_eq!(dispatch(Some("nope/nope"), false), Reply::MethodNotFound);
    assert_eq!(METHOD_NOT_FOUND, -32601);
    assert_eq!(dispatch(None, false), Reply::MissingMethod);
}

#[test]
fn notifications_get_no_reply() {
    assert_eq!(dispatch(Some("notifications/initialized"), true), Reply::Quiet);
    assert_eq!(dispatch(Some("nope/nope"), true), Reply::Quiet);
    assert_eq!(dispatch(Some("exit"), true), Reply::Stop);
    assert_eq!(dispatch(Some("ping"), false), Reply::EmptyResult);
}

#[test]
fn list_filters_by_layer() {
    let report = fixture();
    assert_eq!(tool_list(&report, None), vec![(0, 0), (1, 0)]);
    assert_eq!(tool_list(&report, Some("services")), vec![(1, 0)]);
    assert!(tool_list(&report, Some("models")).is_empty());
    assert!(layer_matches(None, "flows"));
    assert!(!layer_matches(Some("flows"), "models"));
}

#[test]
fn scans_pub_fn_in_services() {
    let src = "use diesel::prelude::*;\n/// Sends plain-text email via SMTP.\npub async fn send(to: &str, subject: &str, body: &str) -> Result<(), String> { Ok(()) }\nfn private_helper() {}\n";
    let fns = vec![
        item(
            "send",
            "pub async fn send (to : & str , subject : & str , body : & str) -> Result < () , String >",
            &[" Sends plain-text email via SMTP."],
            true,
        ),
        item("private_helper", "fn private_helper ()", &[], false),
    ];
    let components = vec!["services".to_string(), "email.rs".to_string()];
    let mod_path = derive_module_path(&components, "services/email.rs").expect("module path");
    let entries = file_entries(
        "services",
        &mod_path,
        "/tmp/p/src/services/email.rs",
        "services/email.rs",
        src,
        "use diesel :: prelude :: * ;\n",
        &fns,
    );
    assert_eq!(entries.len(), 1);
    let entry = &entries[0];
    assert_eq!(entry.name, "send");
    assert_eq!(entry.fqn, "services::email::send");
    assert_eq!(entry.module, "email");
    assert!(entry.signature.contains("send"));
    assert!(entry.doc.contains("Sends plain-text email"));
    assert!(entry.side_effects.contains(&"db".to_string()));
    assert_eq!(entry.origin, "custom");
    assert_eq!(entry.line, 3);
}

#[test]
fn detects_generated_origin() {
    let components = vec!["flows".to_string(), "generated".to_string(), "orders.rs".to_string()];
    let mod_path = derive_module_path(&components, "flows/generated/orders.rs").expect("module path");
    let fns = vec![item("list", "pub fn list () -> ()", &[], true)];
    let entries = file_entries(
        "flows",
        &mod_path,
        "/tmp/p/src/flows/generated/orders.rs",
        "flows/generated/orders.rs",
        "pub fn list() -> () {}\n",
        "",
        &fns,
    );
    assert_eq!(entries.len(), 1);
    assert_eq!(entries[0].origin, "generated");
    assert_eq!(entries[0].fqn, "flows::generated::orders::list");
    assert_eq!(entries[0].module, "generated");
    assert_eq!(entries[0].side_effects, vec!["pure".to_string()]);
}

#[test]
fn extracts_routes_from_axum() {
    let src = "pub fn router() -> Router {\n    Router::new().route(\"/auth/login\", post(login)).route(\"/auth/me\", get(me))\n}\npub async fn login() {}\npub async fn me() {}\n";
    let routes = routes_in_file(src, "routes/auth.rs").expect("routes");
    assert_eq!(routes.len(), 2);
    let login = routes.iter().find(|r| r.path == "/auth/login").expect("login");
    assert_eq!(login.method, "POST");
    assert_eq!(login.flow, "login");
    assert_eq!(login.source, "routes/auth.rs");
    let sorted = sort_routes(routes);
    assert_eq!(sorted[0].path, "/auth/login");
    assert_eq!(sorted[1].path, "/auth/me");
}

#[test]
fn module_labels_drop_layer_and_file() {
    assert_eq!(module_path_label("services", "services::email"), "email");
    assert_eq!(module_path_label("services", "services::mail::smtp"), "mail");
    assert_eq!(module_path_label("services", "services::a::b::c"), "a::b");
    assert_eq!(module_path_label("services", "services"), "services");
    assert_eq!(module_path_label("flows", "other::x"), "other");
}

#[test]
fn module_paths_follow_directories() {
    let c = |v: &[&str]| v.iter().map(|s| s.to_string()).collect::<Vec<String>>();
    assert_eq!(derive_module_path(&c(&["services", "mod.rs"]), "x").expect("ok"), "services");
    assert_eq!(derive_module_path(&c(&["a", "b", "c.tar.rs"]), "x").expect("ok"), "a::b::c.tar");
    assert_eq!(derive_module_path(&c(&[".hidden"]), "x").expect("ok"), ".hidden");
    match derive_module_path(&Vec::new(), "src/") {
        Err(BlastError::Invalid(m)) => assert_eq!(m, "no file stem: src/"),
        _ => panic!("expected an error"),
    }
}

#[test]
fn whitespace_collapses_and_trims() {
    assert_eq!(collapse_whitespace("  pub  fn\n\tsend ( a )  "), "pub fn send ( a )");
    assert_eq!(collapse_whitespace(""), "");
}

#[test]
fn doc_summary_is_first_paragraph() {
    let d = |v: &[&str]| v.iter().map(|s| s.to_string()).collect::<Vec<String>>();
    assert_eq!(extract_doc(&d(&[" First line.", " second line.", "", " Next para."])), "First line. second line.");
    assert_eq!(extract_doc(&d(&["", "  ", " Only para."])), "Only para.");
    assert_eq!(extract_doc(&Vec::new()), "");
}

#[test]
fn side_effects_are_sorted_classes() {
    assert_eq!(detect_side_effects("use std :: fs ;\nuse reqwest :: Client ;\nuse diesel :: prelude :: * ;\n"), vec!["db", "io", "net"]);
    assert_eq!(detect_side_effects("use crate :: x ;\n"), vec!["pure"]);
}

#[test]
fn verbs_map_to_methods() {
    assert_eq!(method_from_verb("get"), "GET");
    assert_eq!(method_from_verb("options"), "OPTIONS");
    assert_eq!(method_from_verb("any"), "ANY");
}

#[test]
fn rust_files_by_extension() {
    assert!(is_rust_file("main.rs"));
    assert!(!is_rust_file(".rs"));
    assert!(!is_rust_file("notes.md"));
    assert!(!is_rust_file("rs"));
}

#[test]
fn lines_are_counted_from_one() {
    let lookup = LineLookup::new("fn a() {}\n\nfn b() {}\n");
    assert_eq!(lookup.line_of_ident("a"), 1);
    assert_eq!(lookup.line_of_ident("b"), 3);
    assert_eq!(lookup.line_of_ident("c"), 0);
    assert_eq!(lookup.line_at(0), 1);
}

#[test]
fn entries_and_layers_are_ordered() {
    let e = |fqn: &str| entry("m", "n", fqn, "", "pure", "p.rs", 1);
    let sorted = sort_entries_by_fqn(vec![e("b::x"), e("a::y"), e("a::b")]);
    let fqns: Vec<&str> = sorted.iter().map(|x| x.fqn.as_str()).collect();
    assert_eq!(fqns, vec!["a::b", "a::y", "b::x"]);
    let layers = collect_layers(vec![
        ("services".to_string(), vec![e("services::a")]),
        ("routines".to_string(), Vec::new()),
        ("flows".to_string(), vec![e("flows::a")]),
    ]);
    let names: Vec<&str> = layers.iter().map(|(n, _)| n.as_str()).collect();
    assert_eq!(names, vec!["flows", "services"]);
    assert_eq!(scanned_layers(), vec!["services", "routines", "models", "flows", "transport", "routes"]);
}

#[test]
fn error_replies_carry_jsonrpc_codes() {
    assert_eq!(error_code(Reply::MissingMethod), Some(-32600));
    assert_eq!(error_code(Reply::MethodNotFound), Some(-32601));
    assert_eq!(error_code(Reply::ToolsList), None);
}

#[test]
fn barrels_are_not_indexed() {
    assert!(is_indexed_file("email.rs"));
    assert!(!is_indexed_file("mod.rs"));
    assert!(!is_indexed_file("notes.txt"));
    assert_eq!(route_layers(), vec!["transport", "routes"]);
}

#[test]
fn file_entries_parse_the_source_text() {
    let src = "use diesel::prelude::*;\n/// Sends plain-text email via SMTP.\npub async fn send(to: &str) -> Result<(), String> { Ok(()) }\nfn private_helper() {}\n";
    let entries = blast::arsenal::rust_items::file_entries_of("services", "services::email", "src/services/email.rs", "services/email.rs", src)
        .expect("parses");
    assert_eq!(entries.len(), 1);
    assert_eq!(entries[0].name, "send");
    assert_eq!(entries[0].fqn, "services::email::send");
    assert_eq!(entries[0].doc, "Sends plain-text email via SMTP.");
    assert_eq!(entries[0].signature, "async fn send (to : & str) -> Result < () , String >");
    assert_eq!(entries[0].line, 3);
    assert!(!entries[0].side_effects.is_empty());
}

#[test]
fn file_entries_refuse_unparsable_source() {
    match blast::arsenal::rust_items::file_entries_of("services", "services::x", "src/services/x.rs", "services/x.rs", "pub fn (") {
        Err(BlastError::Invalid(m)) => assert!(m.starts_with("syn parse src/services/x.rs: "), "{m}"),
        Err(e) => panic!("unexpected error: {e:?}"),
        Ok(_) => panic!("unparsable source accepted"),
    }
}

#[test]
fn request_lines_are_read_into_fields() {
    use_request_line();
}

fn use_request_line() {
    let (q, reply) = blast::arsenal::mcp::request_of_line(
        r#"{"jsonrpc":"2.0","id":7,"method":"tools/call","params":{"name":"search","arguments":{"query":"mail"}}}"#,
    )
    .expect("json");
    assert!(q.has_id);
    assert_eq!(q.id, "7");
    assert_eq!(q.method.as_deref(), Some("tools/call"));
    assert_eq!(q.tool.as_deref(), Some("search"));
    assert_eq!(q.query.as_deref(), Some("mail"));
    assert!(q.layer.is_none() && q.fqn.is_none());
    assert!(matches!(reply, blast::arsenal::mcp::Reply::ToolsCall));
    let (n, quiet) = blast::arsenal::mcp::request_of_line(r#"{"method":"notifications/whatever"}"#).unwrap();
    assert!(!n.has_id);
    assert_eq!(n.id, "null");
    assert!(matches!(quiet, blast::arsenal::mcp::Reply::Quiet));
    match blast::arsenal::mcp::request_of_line("{not json") {
        Err(m) => assert!(m.starts_with("parse error: "), "{m}"),
        Ok(_) => panic!("accepted"),
    }
}
