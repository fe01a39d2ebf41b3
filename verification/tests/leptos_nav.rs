use blast::codegen::leptos_nav::render::render_inventory;
use blast::codegen::leptos_nav::runner::{build_route_table, validate_nav, RouteTable};
use blast::error::BlastError;
use blast::state::app::{Entry, NavConfig, Page, Role, Section};
use blast::state::{
    AuthMode, FieldKind, FieldName, FieldState, FieldVariant, GenLevel, ResourceName, ResourceState, SqlType, Verb,
    VerbState,
};

fn route_table() -> RouteTable {
    let mut table = RouteTable::new();
    table.insert("dashboard".to_string(), "/dashboard".to_string());
    table.insert("profile".to_string(), "/profile".to_string());
    table.insert("posts.list".to_string(), "/posts".to_string());
    table
}

fn nav(sections: Vec<Section>) -> NavConfig {
    NavConfig { sections }
}

fn one_entry(roles_on_section: Option<Vec<Role>>, route: &str, label: Option<&str>, roles: Option<Vec<Role>>) -> NavConfig {
    nav(vec![Section {
        key: "main".to_string(),
        label: "Main".to_string(),
        icon: "home".to_string(),
        roles: roles_on_section,
        entries: vec![Entry { route: route.to_string(), label: label.map(|s| s.to_string()), icon: None, roles }],
    }])
}

#[test]
fn empty_nav_emits_empty_static() {
    let body = render_inventory(&nav(Vec::new()), &route_table());
    assert!(body.contains("pub static NAV_INVENTORY: &[NavSection] = &["));
    assert!(body.contains("];"));
    assert!(!body.contains("UserRole"), "no role imports when no roles: {body}");
}

#[test]
fn entry_uses_route_table_path() {
    let cfg = one_entry(None, "dashboard", Some("Dashboard"), None);
    let body = render_inventory(&cfg, &route_table());
    assert!(body.contains("path: \"/dashboard\""), "must reference resolved path: {body}");
    assert!(body.contains("label: \"Dashboard\""), "must include label: {body}");
    assert!(body.contains("roles: &[]"), "no roles → empty slice: {body}");
}

#[test]
fn role_gated_section_emits_role_slice() {
    let cfg = nav(vec![Section {
        key: "ops".to_string(),
        label: "Ops".to_string(),
        icon: "tools".to_string(),
        roles: Some(vec![Role::Admin]),
        entries: vec![Entry { route: "dashboard".to_string(), label: None, icon: None, roles: None }],
    }]);
    let body = render_inventory(&cfg, &route_table());
    assert!(body.contains("use crate::structs::generated::UserRole;"), "must import UserRole: {body}");
    assert!(body.contains("roles: &[UserRole::Admin]"), "must reference UserRole::Admin: {body}");
}

#[test]
fn role_gated_entry_maps_user_to_member() {
    let cfg = one_entry(None, "dashboard", None, Some(vec![Role::User]));
    let body = render_inventory(&cfg, &route_table());
    assert!(body.contains("UserRole::Member"), "User role must map to canonical UserRole::Member: {body}");
}

#[test]
fn label_falls_back_to_route_name() {
    let cfg = one_entry(None, "dashboard", None, None);
    let body = render_inventory(&cfg, &route_table());
    assert!(body.contains("label: \"dashboard\""));
}

#[test]
fn multiple_roles_emit_comma_separated_slice() {
    let cfg = one_entry(None, "dashboard", None, Some(vec![Role::Admin, Role::User]));
    let body = render_inventory(&cfg, &route_table());
    assert!(body.contains("&[UserRole::Admin, UserRole::Member]"), "must emit both variants in slice: {body}");
}

#[test]
fn unknown_route_falls_back_to_literal_path() {
    let mut empty_table = RouteTable::new();
    empty_table.insert("dashboard".to_string(), "/dashboard".to_string());
    let cfg = one_entry(None, "uncharted", None, None);
    let body = render_inventory(&cfg, &empty_table);
    assert!(body.contains("path: \"/uncharted\""), "must fall back to literal path: {body}");
}

#[test]
fn icon_names_become_icon_kind_variants() {
    let cfg = nav(vec![Section {
        key: "main".to_string(),
        label: "Main".to_string(),
        icon: "home".to_string(),
        roles: None,
        entries: vec![
            Entry { route: "dashboard".to_string(), label: None, icon: Some("  alert-triangle ".to_string()), roles: None },
            Entry { route: "profile".to_string(), label: None, icon: Some("   ".to_string()), roles: None },
        ],
    }]);
    let body = render_inventory(&cfg, &route_table());
    assert!(body.starts_with("use crate::structs::custom::icons::IconKind;\n"));
    assert!(body.contains("icon: Some(IconKind::AlertTriangle),"));
    assert!(body.contains("icon: None,"));
}

#[test]
fn labels_are_escaped_rust_literals() {
    let cfg = one_entry(None, "dashboard", Some("Say \"hi\""), None);
    let body = render_inventory(&cfg, &route_table());
    assert!(body.contains("label: \"Say \\\"hi\\\"\","));
}

fn page_resource(name: &str, verbs: &[(Verb, bool)], level: GenLevel) -> ResourceState {
    let fields = vec![(
        FieldName::new("id"),
        FieldState {
            sql_type: SqlType::new("BigInt"),
            variants: vec![FieldVariant::Db, FieldVariant::Public],
            nullable: false,
            primary_key: true,
            validators: Vec::new(),
            kind: FieldKind::Plain,
        },
    )];
    let vs = verbs
        .iter()
        .map(|(v, emit)| (*v, VerbState { auth: AuthMode::Public, list_options: None, emit_html_page: *emit, emit_rest_api: true }))
        .collect();
    ResourceState { name: ResourceName::new(name), fields, verbs: vs, ws_events: None, singular_override: None, gen_level: level }
}

#[test]
fn route_table_has_handwritten_and_resource_routes() {
    let posts = page_resource("posts", &[(Verb::List, true), (Verb::Get, true), (Verb::Create, false), (Verb::Update, true)], GenLevel::Pages);
    let table = build_route_table(&[], &[posts]);
    assert_eq!(table.get("dashboard").map(|r| r.path.clone()), Some("/dashboard".to_string()));
    assert_eq!(table.get("welcome").map(|r| r.path.clone()), Some("/".to_string()));
    assert_eq!(table.get("posts.list").map(|r| r.path.clone()), Some("/posts".to_string()));
    assert_eq!(table.get("posts.detail").map(|r| r.path.clone()), Some("/posts/:id".to_string()));
    assert_eq!(table.get("posts.edit").map(|r| r.path.clone()), Some("/posts/:id/edit".to_string()));
    assert!(table.get("posts.create").is_none());
}

#[test]
fn route_table_skips_resources_below_pages_level() {
    let posts = page_resource("posts", &[(Verb::List, true)], GenLevel::Composables);
    let table = build_route_table(&[], &[posts]);
    assert!(!table.contains_key("posts.list"));
}

#[test]
fn pages_override_handwritten_paths() {
    let page = Page {
        route: "dashboard".to_string(),
        path: "/home".to_string(),
        component: "custom:Home".to_string(),
        label: None,
        icon: None,
        in_nav: true,
        roles: None,
    };
    let table = build_route_table(&[page], &[]);
    assert_eq!(table.get("dashboard").map(|r| r.path.clone()), Some("/home".to_string()));
    assert_eq!(table.routes.len(), 6);
}

#[test]
fn validate_nav_reports_first_unknown_route() {
    let cfg = one_entry(None, "uncharted", None, None);
    let table = route_table();
    match validate_nav(&cfg, &table) {
        Err(BlastError::Invalid(m)) => assert_eq!(
            m,
            "nav entry references unknown route 'uncharted' in section 'main'; known routes: dashboard, posts.list, profile"
        ),
        _ => panic!("expected an error"),
    }
    assert!(validate_nav(&one_entry(None, "profile", None, None), &table).is_ok());
}

#[test]
fn unknown_route_errors() {
    let cfg = one_entry(None, "does.not.exist", None, None);
    let table = build_route_table(&[], &[]);
    match validate_nav(&cfg, &table) {
        Err(BlastError::Invalid(msg)) => assert!(msg.contains("does.not.exist"), "msg should mention bad route: {msg}"),
        _ => panic!("expected Invalid"),
    }
}

#[test]
fn nav_barrel_reexports_app_nav() {
    assert_eq!(blast::codegen::leptos_nav::runner::NAV_BARREL, "pub mod app_nav;\n\npub use app_nav::AppNav;\n");
}
