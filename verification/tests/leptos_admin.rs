use blast::codegen::leptos_admin::render::{collect_entries, render_admin_crud_menu};
use blast::state::{
    AuthMode, FieldKind, FieldName, FieldState, FieldVariant, GenLevel, ListOptions, ResourceName, ResourceState,
    SqlType, Verb, VerbState,
};

fn admin_resource(table: &str, verbs: &[Verb]) -> ResourceState {
    let fields = vec![(
        FieldName::new("id"),
        FieldState {
            sql_type: SqlType::new("Int8"),
            variants: vec![FieldVariant::Db, FieldVariant::Public],
            nullable: false,
            primary_key: true,
            validators: Vec::new(),
            kind: FieldKind::Plain,
        },
    )];
    let vs = verbs
        .iter()
        .map(|v| {
            let list_options = match v {
                Verb::List => Some(ListOptions { paginated: true, filterable_columns: Vec::new(), sortable_columns: Vec::new(), default_sort: None, max_page_size: None }),
                _ => None,
            };
            (*v, VerbState { auth: AuthMode::AuthRequired, list_options, emit_rest_api: true, emit_html_page: true })
        })
        .collect();
    ResourceState { name: ResourceName::new(table), fields, verbs: vs, ws_events: None, singular_override: None, gen_level: GenLevel::Pages }
}

#[test]
fn empty_emits_friendly_placeholder() {
    let body = render_admin_crud_menu(&[]);
    assert!(body.contains("admin-crud-menu--empty"));
    assert!(body.contains("blast migration"));
    assert!(body.contains("pub fn AdminCrudMenu"));
}

#[test]
fn lists_resource_with_list_and_create_links() {
    let r = admin_resource("postari", &[Verb::List, Verb::Get, Verb::Create]);
    let entries = collect_entries(&[r]);
    let body = render_admin_crud_menu(&entries);
    assert!(body.contains("href=\"/postari\""), "list link: {body}");
    assert!(body.contains("href=\"/postari/new\""), "create link: {body}");
    assert!(body.contains("\"Postari\""), "stem heading: {body}");
}

#[test]
fn skips_links_for_unselected_verbs() {
    let r = admin_resource("widgets", &[Verb::List, Verb::Get]);
    let entries = collect_entries(&[r]);
    let body = render_admin_crud_menu(&entries);
    assert!(body.contains("href=\"/widgets\""));
    assert!(!body.contains("/widgets/new"), "no create link when verb absent:\n{body}");
}

#[test]
fn entries_sorted_by_table_name() {
    let r1 = admin_resource("zebras", &[Verb::List]);
    let r2 = admin_resource("apples", &[Verb::List]);
    let entries = collect_entries(&[r1, r2]);
    assert_eq!(entries[0].table, "apples");
    assert_eq!(entries[1].table, "zebras");
}

#[test]
fn detail_hint_only_when_no_list() {
    let r = admin_resource("widgets", &[Verb::Get]);
    let entries = collect_entries(&[r]);
    let body = render_admin_crud_menu(&entries);
    assert!(body.contains("Detail at /widgets/:id"), "detail hint when list absent:\n{body}");

    let r2 = admin_resource("widgets", &[Verb::List, Verb::Get]);
    let entries2 = collect_entries(&[r2]);
    let body2 = render_admin_crud_menu(&entries2);
    assert!(!body2.contains("Detail at"), "no hint when list exists:\n{body2}");
}

#[test]
fn edit_hint_only_without_list_and_detail() {
    let r = admin_resource("widgets", &[Verb::Update]);
    let body = render_admin_crud_menu(&collect_entries(&[r]));
    assert!(body.contains("Edit at /widgets/:id/edit"));
    let r2 = admin_resource("widgets", &[Verb::Get, Verb::Update]);
    let body2 = render_admin_crud_menu(&collect_entries(&[r2]));
    assert!(!body2.contains("Edit at"));
}

#[test]
fn equal_tables_keep_input_order() {
    let mut a = admin_resource("same", &[Verb::List]);
    a.singular_override = Some("first".to_string());
    let mut b = admin_resource("same", &[Verb::List]);
    b.singular_override = Some("second".to_string());
    let c = admin_resource("alpha", &[Verb::List]);
    let entries = collect_entries(&[a, b, c]);
    assert_eq!(entries[0].table, "alpha");
    assert_eq!(entries[1].stem, "First");
    assert_eq!(entries[2].stem, "Second");
}
