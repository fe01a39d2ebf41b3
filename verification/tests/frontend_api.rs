use blast::codegen::frontend_api::render::{build_resource_api, plural_of_pascal};
use blast::state::{
    AuthMode, FieldKind, FieldName, FieldState, FieldVariant, GenLevel, ListOptions, ResourceName, ResourceState,
    SqlType, Verb, VerbState,
};

fn api_field(sql: &str, variants: Vec<FieldVariant>, pk: bool) -> FieldState {
    FieldState { sql_type: SqlType::new(sql), variants, nullable: false, primary_key: pk, validators: Vec::new(), kind: FieldKind::Plain }
}

fn api_resource(verbs: &[Verb]) -> ResourceState {
    let all_v = vec![FieldVariant::Db, FieldVariant::Insertable, FieldVariant::Patch, FieldVariant::Public];
    let id_v = vec![FieldVariant::Db, FieldVariant::Public];
    let fields = vec![
        (FieldName::new("id"), api_field("Int8", id_v, true)),
        (FieldName::new("email"), api_field("Varchar", all_v, false)),
    ];
    let mut vs = Vec::new();
    for v in verbs {
        let list_options = match v {
            Verb::List => Some(ListOptions { paginated: true, filterable_columns: Vec::new(), sortable_columns: Vec::new(), default_sort: None, max_page_size: None }),
            _ => None,
        };
        vs.push((*v, VerbState { auth: AuthMode::Public, list_options, emit_html_page: true, emit_rest_api: true }));
    }
    ResourceState { name: ResourceName::new("users"), fields, verbs: vs, ws_events: None, singular_override: None, gen_level: GenLevel::Pages }
}

fn api_all_verbs() -> ResourceState {
    api_resource(&[Verb::List, Verb::Get, Verb::Create, Verb::Update, Verb::Delete])
}

#[test]
fn exports_all_verb_functions() {
    let r = api_all_verbs();
    let body = build_resource_api(&r);
    assert!(body.contains("export async function listUsers("), "listUsers missing");
    assert!(body.contains("export async function getUser("), "getUser missing");
    assert!(body.contains("export async function createUser("), "createUser missing");
    assert!(body.contains("export async function updateUser("), "updateUser missing");
    assert!(body.contains("export async function deleteUser("), "deleteUser missing");
}

#[test]
fn imports_types_from_generated_types() {
    let r = api_all_verbs();
    let body = build_resource_api(&r);
    assert!(body.contains("from '@/generated/types/users'"), "must import from @/generated/types/users");
    assert!(body.contains("from '@/generated/types/meltdown'"), "must import MeltDownResponse");
}

#[test]
fn list_fn_uses_correct_path() {
    let r = api_all_verbs();
    let body = build_resource_api(&r);
    assert!(body.contains("users/"), "list fn must reference users/ path");
}

#[test]
fn delete_fn_returns_id_shape() {
    let r = api_all_verbs();
    let body = build_resource_api(&r);
    assert!(body.contains("ApiResult<{ id: number }>"), "delete must return id shape");
}

#[test]
fn no_raw_fetch_in_types_import() {
    let r = api_all_verbs();
    let body = build_resource_api(&r);
    assert!(!body.contains(": any"), "no :any in api file");
    assert!(!body.contains("as any"), "no as any in api file");
}

#[test]
fn render_plural_of_pascal_for_users() {
    assert_eq!(plural_of_pascal("User", "users"), "Users");
}

#[test]
fn render_plural_of_pascal_for_user_accounts() {
    assert_eq!(plural_of_pascal("UserAccount", "user_accounts"), "UserAccounts");
}

#[test]
fn api_type_imports_follow_verbs() {
    let body = build_resource_api(&api_all_verbs());
    assert!(body.starts_with("import { type UserPublic, type UserInsertable, type UserPatch } from '@/generated/types/users'\n"));
    let del_only = build_resource_api(&api_resource(&[Verb::Delete]));
    assert!(del_only.starts_with("import type { MeltDownResponse } from '@/generated/types/meltdown'\n"));
    assert!(del_only.ends_with("}\n"));
    assert!(!del_only.ends_with("\n\n"));
}

#[test]
fn exports_match_the_composables_imports() {
    let mut r = api_all_verbs();
    r.name = ResourceName::new("categories");
    let api = build_resource_api(&r);
    let ts = blast::codegen::composables_v2::render::build_resource_ts(&r);
    let line = ts.lines().find(|l| l.contains("as apiList")).expect("api import line");
    let inner = &line[line.find("{ ").unwrap() + 2..line.find(" }").unwrap()];
    let mut seen = 0;
    for entry in inner.split(", ") {
        let name = entry.split(" as ").next().unwrap();
        assert!(api.contains(&format!("export async function {name}(")), "{name} not exported:\n{api}");
        seen += 1;
    }
    assert_eq!(seen, 5);
}
