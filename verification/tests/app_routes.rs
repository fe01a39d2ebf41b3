use blast::codegen::app_routes::runner::{collect_route_entries, render_routes_file, RouteEntry};
use blast::state::{
    AuthMode, FieldKind, FieldName, FieldState, FieldVariant, GenLevel, ListOptions, ResourceName, ResourceState,
    SqlType, Verb, VerbState,
};

fn make_resource(name: &str, verbs: &[(Verb, bool)]) -> ResourceState {
    let fields = vec![(
        FieldName::new("id"),
        FieldState {
            sql_type: SqlType::new("BigInt"),
            variants: vec![FieldVariant::Db, FieldVariant::Public],
            nullable: false,
            primary_key: true,
            validators: Vec::new(),
            kind: FieldKind::Plain,
        },
    )];
    let vs = verbs
        .iter()
        .map(|(verb, emit_html)| {
            let list_options = match verb {
                Verb::List => Some(ListOptions { paginated: true, filterable_columns: Vec::new(), sortable_columns: Vec::new(), default_sort: None, max_page_size: None }),
                _ => None,
            };
            (*verb, VerbState { auth: AuthMode::Public, list_options, emit_rest_api: true, emit_html_page: *emit_html })
        })
        .collect();
    ResourceState { name: ResourceName::new(name), fields, verbs: vs, ws_events: None, singular_override: None, gen_level: GenLevel::Pages }
}

#[test]
fn empty_resources_emit_unit_tuple() {
    let entries: Vec<RouteEntry> = collect_route_entries(&[]);
    let body = render_routes_file(&entries);
    assert!(body.contains("    ()"));
    assert!(body.contains("#[component(transparent)]"));
    assert!(body.contains("pub fn GeneratedRoutes()"));
    assert!(!body.contains("view!"));
}

#[test]
fn emit_html_page_false_skips_verb() {
    let r = make_resource("posts", &[(Verb::List, false), (Verb::Get, true)]);
    let entries = collect_route_entries(&[r]);
    assert_eq!(entries.len(), 1);
    assert_eq!(entries[0].path_lit, "/posts/:id");
}

#[test]
fn all_four_verbs_emit_when_flagged() {
    let r = make_resource("posts", &[(Verb::List, true), (Verb::Get, true), (Verb::Create, true), (Verb::Update, true)]);
    let entries = collect_route_entries(&[r]);
    assert_eq!(entries.len(), 4);
    let body = render_routes_file(&entries);
    assert!(body.contains("#[component(transparent)]"));
    assert!(body.contains("pub fn GeneratedRoutes()"));
    assert!(body.contains("view! {"));
    assert!(body.contains("path!(\"/posts\")"));
    assert!(body.contains("path!(\"/posts/:id\")"));
    assert!(body.contains("path!(\"/posts/new\")"));
    assert!(body.contains("path!(\"/posts/:id/edit\")"));
    assert!(body.contains("PostListPage"));
    assert!(body.contains("PostDetailPage"));
    assert!(body.contains("PostCreatePage"));
    assert!(body.contains("PostEditPage"));
}

#[test]
fn delete_verb_does_not_emit_route() {
    let r = make_resource("posts", &[(Verb::Delete, true), (Verb::List, true)]);
    let entries = collect_route_entries(&[r]);
    assert_eq!(entries.len(), 1);
    assert_eq!(entries[0].page_module, "list");
}

#[test]
fn alphabetical_resource_ordering() {
    let users = make_resource("users", &[(Verb::List, true)]);
    let posts = make_resource("posts", &[(Verb::List, true)]);
    let resources = [users, posts];
    let mut sorted: Vec<ResourceState> = resources.into_iter().collect();
    sorted.sort_by(|a, b| a.name.as_str().cmp(b.name.as_str()));
    let entries = collect_route_entries(&sorted);
    assert_eq!(entries[0].table, "posts");
    assert_eq!(entries[1].table, "users");
}

#[test]
fn route_imports_are_sorted_before_routes() {
    let r = make_resource("posts", &[(Verb::List, true), (Verb::Get, true)]);
    let body = render_routes_file(&collect_route_entries(&[r]));
    let detail = body.find("use crate::transport::leptos::pages::generated::posts::detail::PostDetailPage;").unwrap();
    let list = body.find("use crate::transport::leptos::pages::generated::posts::list::PostListPage;").unwrap();
    assert!(detail < list);
    let list_route = body.find("<Route path=path!(\"/posts\") view=PostListPage/>").unwrap();
    let detail_route = body.find("<Route path=path!(\"/posts/:id\") view=PostDetailPage/>").unwrap();
    assert!(list_route < detail_route);
}
