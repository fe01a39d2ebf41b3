use blast::codegen::header::{marker_for_app, marker_for_resource};
use blast::codegen::pipeline::{ensure_line, has_resources_at, needs_write, owning_table};
use blast::codegen::{app_routes, composables, composables_v2, flows, frontend_types, http_routes, leptos_admin, leptos_data};
use blast::codegen::enums::scan::ParsedEnum;
use blast::state::{
    AuthMode, FieldKind, FieldName, FieldState, FieldVariant, GenLevel, ListOptions, ResourceName, ResourceState,
    SqlType, Verb, VerbState,
};

fn field(sql: &str, variants: Vec<FieldVariant>, pk: bool) -> FieldState {
    FieldState { sql_type: SqlType::new(sql), variants, nullable: false, primary_key: pk, validators: Vec::new(), kind: FieldKind::Plain }
}

fn resource(table: &str, verbs: &[Verb], level: GenLevel) -> ResourceState {
    let all_v = vec![FieldVariant::Db, FieldVariant::Insertable, FieldVariant::Patch, FieldVariant::Public];
    let fields = vec![
        (FieldName::new("id"), field("Int8", vec![FieldVariant::Db, FieldVariant::Public], true)),
        (FieldName::new("email"), field("Varchar", all_v, false)),
    ];
    let vs = verbs
        .iter()
        .map(|v| {
            let list_options = match v {
                Verb::List => Some(ListOptions {
                    paginated: true,
                    filterable_columns: Vec::new(),
                    sortable_columns: Vec::new(),
                    default_sort: None,
                    max_page_size: None,
                }),
                _ => None,
            };
            (*v, VerbState { auth: AuthMode::Public, list_options, emit_html_page: true, emit_rest_api: true })
        })
        .collect();
    ResourceState { name: ResourceName::new(table), fields, verbs: vs, ws_events: None, singular_override: None, gen_level: level }
}

const ALL: [Verb; 5] = [Verb::List, Verb::Get, Verb::Create, Verb::Update, Verb::Delete];

fn names(files: &[(String, String)]) -> Vec<&str> {
    files.iter().map(|(n, _)| n.as_str()).collect()
}

fn body<'a>(files: &'a [(String, String)], name: &str) -> &'a str {
    files.iter().find(|(n, _)| n == name).map(|(_, b)| b.as_str()).expect("file present")
}

#[test]
fn runner_emits_gitkeep_when_no_resources() {
    let files = composables::runner::plan_files(Vec::new());
    assert_eq!(files, vec![(".gitkeep".to_string(), String::new())]);
    let types = frontend_types::runner::plan_files(Vec::new(), &[]);
    assert_eq!(names(&types), vec!["meltdown.ts", ".gitkeep"]);
}

#[test]
fn runner_emits_per_resource_file() {
    let files = composables::runner::plan_files(vec![resource("users", &ALL, GenLevel::Pages)]);
    assert_eq!(names(&files), vec!["users.ts", "index.ts"]);
    let b = body(&files, "users.ts");
    assert!(b.contains("export function useUsersList"), "useUsersList required");
    assert!(b.contains("export function useUser"), "useUser required");
    assert!(b.contains("export function useCreateUser"), "useCreateUser required");
    assert!(b.contains("export function useUpdateUser"), "useUpdateUser required");
    assert!(b.contains("export function useDeleteUser"), "useDeleteUser required");
    let types = frontend_types::runner::plan_files(vec![resource("users", &ALL, GenLevel::Pages)], &[]);
    assert!(body(&types, "users.ts").contains("export interface UserPublic"), "UserPublic required");
}

#[test]
fn emits_index_barrel() {
    let files = composables::runner::plan_files(vec![resource("users", &ALL, GenLevel::Pages)]);
    let b = body(&files, "index.ts");
    assert!(b.contains("from './users'"));
    assert!(b.contains("useUsersList"));
    assert!(b.contains("useDeleteUser"));
}

#[test]
fn runner_skips_resources_below_composables_gen_level() {
    let files = composables::runner::plan_files(vec![resource("users", &ALL, GenLevel::Types)]);
    assert_eq!(names(&files), vec![".gitkeep"]);
    let data = leptos_data::runner::plan_files(vec![resource("posts", &ALL, GenLevel::Types)]);
    assert!(!names(&data).contains(&"posts.rs"), "must NOT emit when gen_level < Composables");
}

#[test]
fn runner_idempotent_second_run_skips_unchanged() {
    let first = composables::runner::plan_files(vec![resource("users", &ALL, GenLevel::Pages)]);
    let second = composables::runner::plan_files(vec![resource("users", &ALL, GenLevel::Pages)]);
    assert_eq!(first, second);
    for (_, b) in &second {
        assert!(!needs_write(&Some(b.clone()), b), "unchanged file must be skipped");
        assert!(needs_write(&None, b));
    }
    assert!(needs_write(&Some("stale".to_string()), body(&second, "users.ts")));
}

#[test]
fn emits_meltdown_ts_always() {
    let types = frontend_types::runner::plan_files(vec![resource("users", &ALL, GenLevel::Pages)], &[]);
    assert_eq!(types[0].0, "meltdown.ts");
    assert!(types[0].1.contains("MeltDownResponse"), "MeltDownResponse interface required");
}

#[test]
fn types_emit_each_enum_module_once() {
    let mut a = resource("users", &ALL, GenLevel::Pages);
    a.fields.push((FieldName::new("role"), field("UserRole", vec![FieldVariant::Db, FieldVariant::Public], false)));
    let mut b = resource("admins", &ALL, GenLevel::Pages);
    b.fields.push((FieldName::new("role"), field("UserRole", vec![FieldVariant::Db, FieldVariant::Public], false)));
    let enums = vec![ParsedEnum {
        name: "user_role".to_string(),
        variants: vec!["admin".to_string(), "member".to_string()],
        source_file: "m.sql".to_string(),
    }];
    let files = frontend_types::runner::plan_files(vec![a, b], &enums);
    assert_eq!(names(&files), vec!["meltdown.ts", "user_role.ts", "users.ts", "admins.ts"]);
}

#[test]
fn no_resources_emits_gitkeep_and_empty_barrel() {
    let files = leptos_data::runner::plan_files(Vec::new());
    assert_eq!(files, vec![(".gitkeep".to_string(), String::new()), ("mod.rs".to_string(), "\n".to_string())]);
}

#[test]
fn top_barrel_lists_emitted_resources_alphabetically() {
    let files = leptos_data::runner::plan_files(vec![
        resource("zebras", &ALL, GenLevel::Composables),
        resource("apples", &ALL, GenLevel::Composables),
    ]);
    assert_eq!(names(&files), vec!["zebras.rs", "apples.rs", "mod.rs"]);
    assert_eq!(body(&files, "mod.rs"), "pub mod apples;\npub mod zebras;\n");
}

#[test]
fn emits_per_verb_helpers_for_full_verb_set() {
    let files = leptos_data::runner::plan_files(vec![resource("posts", &ALL, GenLevel::Composables)]);
    let b = body(&files, "posts.rs");
    assert!(b.contains("pub async fn load_posts_list"), "missing list helper: {b}");
    assert!(b.contains("pub async fn load_posts_one"), "missing get helper: {b}");
    assert!(b.contains("pub async fn do_posts_create"), "missing create helper: {b}");
    assert!(b.contains("pub async fn do_posts_update"), "missing update helper: {b}");
    assert!(b.contains("pub async fn do_posts_delete"), "missing delete helper: {b}");
}

#[test]
fn empty_resources_emits_placeholder_component() {
    let files = leptos_admin::runner::plan_files(Vec::new());
    assert_eq!(names(&files), vec!["admin_crud_menu.rs", "mod.rs"]);
    let b = body(&files, "admin_crud_menu.rs");
    assert!(b.contains("pub fn AdminCrudMenu"));
    assert!(b.contains("admin-crud-menu--empty"));
    assert_eq!(body(&files, "mod.rs"), "pub mod admin_crud_menu;\n\npub use admin_crud_menu::AdminCrudMenu;\n");
}

#[test]
fn populated_resources_emit_links() {
    let files = leptos_admin::runner::plan_files(vec![resource("postari", &[Verb::List, Verb::Create], GenLevel::Pages)]);
    let b = body(&files, "admin_crud_menu.rs");
    assert!(b.contains("href=\"/postari\""), "list link: {b}");
    assert!(b.contains("href=\"/postari/new\""), "create link: {b}");
}

#[test]
fn ensures_components_generated_barrel_pulls_admin() {
    let updated = ensure_line(&Some("pub mod nav;".to_string()), "pub mod admin;", false).expect("changed");
    assert_eq!(updated, "pub mod nav;\npub mod admin;\n");
    assert!(ensure_line(&Some(updated.clone()), "pub mod admin;", false).is_none());
    assert!(ensure_line(&None, "pub mod admin;", false).is_none());
}

#[test]
fn empty_state_emits_no_files() {
    assert!(flows::plan_files(Vec::new()).is_empty());
}

#[test]
fn emits_barrel_and_verb_files_with_headers() {
    let files = flows::plan_files(vec![resource("users", &[Verb::List, Verb::Get], GenLevel::Route)]);
    assert_eq!(names(&files), vec!["users/mod.rs", "users/list.rs", "users/get.rs", "mod.rs"]);
    assert_eq!(body(&files, "users/mod.rs"), "pub mod list;\npub mod get;\n");
    assert_eq!(body(&files, "mod.rs"), "pub mod users;\n");
    // Files of a resource take that resource's header, the barrel the application's.
    let tables = vec!["users".to_string()];
    for name in ["users/mod.rs", "users/list.rs", "users/get.rs"] {
        assert_eq!(owning_table(name, &tables), Some(0), "{name}");
    }
    assert_eq!(owning_table("mod.rs", &tables), None);
    let resource_header = marker_for_resource("/p", "users", "deadbeef").unwrap();
    assert!(resource_header.starts_with("// AUTO-GENERATED from "));
    assert!(resource_header.contains("storage/blast/state/resources/users.ron"));
    let app_header = marker_for_app("/p", "deadbeef").unwrap();
    assert!(app_header.starts_with("// AUTO-GENERATED from storage/blast/state/app.ron"));
}

#[test]
fn emits_per_resource_file_with_all_verbs() {
    let files = http_routes::plan_files(vec![
        resource("users", &ALL, GenLevel::Route),
        resource("drafts", &ALL, GenLevel::Types),
    ]);
    assert_eq!(names(&files), vec!["users.rs", "drafts.rs", "mod.rs", "router.rs"]);
    let b = body(&files, "users.rs");
    assert!(b.contains("pub async fn list"));
    assert!(b.contains("pub async fn delete_one"));
    assert!(body(&files, "mod.rs").contains("pub mod users;"));
    assert!(body(&files, "router.rs").contains("/users"));
}

#[test]
fn composables_v2_plan_skips_verbless_resources() {
    let files = composables_v2::runner::plan_files(&vec![
        resource("users", &ALL, GenLevel::Pages),
        resource("logs", &[], GenLevel::Pages),
        resource("audits", &[Verb::List], GenLevel::Types),
    ]);
    assert_eq!(names(&files), vec!["users.ts", "audits.ts", "index.ts"]);
    assert_eq!(body(&files, "index.ts"), "export * from './audits'\nexport * from './users'\n");
}

#[test]
fn app_routes_plan_orders_tables() {
    let files = app_routes::runner::plan_files(vec![
        resource("zebras", &[Verb::List], GenLevel::Pages),
        resource("apples", &[Verb::List], GenLevel::Pages),
        resource("hidden", &[Verb::List], GenLevel::Types),
    ]);
    assert_eq!(names(&files), vec!["table.rs", "mod.rs"]);
    let t = body(&files, "table.rs");
    let a = t.find("path!(\"/apples\")").expect("apples route");
    let z = t.find("path!(\"/zebras\")").expect("zebras route");
    assert!(a < z);
    assert!(!t.contains("hidden"));
}

#[test]
fn level_presence_is_detected() {
    let rs = vec![resource("a", &ALL, GenLevel::Route), resource("b", &ALL, GenLevel::Types)];
    assert!(has_resources_at(&rs, GenLevel::Types));
    assert!(!has_resources_at(&rs, GenLevel::Composables));
    assert!(!has_resources_at(&Vec::new(), GenLevel::Route));
}
