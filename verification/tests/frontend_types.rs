use blast::codegen::enums::scan::ParsedEnum;
use blast::codegen::frontend_types::render::{
    build_enum_module, build_resource_types, collect_resource_enums, meltdown_ts, ts_base_type,
};
use blast::state::{
    AuthMode, FieldKind, FieldName, FieldState, FieldVariant, FilterKind, GenLevel, ListOptions, ResourceName,
    ResourceState, SqlType, Verb, VerbState,
};

fn field(sql: &str, variants: Vec<FieldVariant>, pk: bool) -> FieldState {
    FieldState {
        sql_type: SqlType::new(sql),
        variants,
        nullable: false,
        primary_key: pk,
        validators: Vec::new(),
        kind: FieldKind::Plain,
    }
}

fn all_variants() -> Vec<FieldVariant> {
    vec![FieldVariant::Db, FieldVariant::Insertable, FieldVariant::Patch, FieldVariant::Public]
}

fn verb(auth: AuthMode, list_options: Option<ListOptions>) -> VerbState {
    VerbState { auth, list_options, emit_html_page: true, emit_rest_api: true }
}

fn synth_resource() -> ResourceState {
    let fields = vec![
        (FieldName::new("id"), field("Int8", vec![FieldVariant::Db, FieldVariant::Public], true)),
        (FieldName::new("email"), field("Varchar", all_variants(), false)),
    ];
    let list = ListOptions {
        paginated: true,
        filterable_columns: vec![(FieldName::new("email"), FilterKind::IlikeContains)],
        sortable_columns: Vec::new(),
        default_sort: None,
        max_page_size: None,
    };
    let verbs = vec![
        (Verb::List, verb(AuthMode::Public, Some(list))),
        (Verb::Get, verb(AuthMode::Public, None)),
        (Verb::Create, verb(AuthMode::Public, None)),
        (Verb::Update, verb(AuthMode::AuthRequired, None)),
    ];
    ResourceState {
        name: ResourceName::new("users"),
        fields,
        verbs,
        ws_events: None,
        singular_override: None,
        gen_level: GenLevel::Pages,
    }
}

fn parsed(name: &str, variants: &[&str]) -> ParsedEnum {
    ParsedEnum {
        name: name.to_string(),
        variants: variants.iter().map(|v| v.to_string()).collect(),
        source_file: "/tmp/dummy.sql".to_string(),
    }
}

#[test]
fn emits_public_interface() {
    let r = synth_resource();
    let enums: Vec<ParsedEnum> = Vec::new();
    let body = build_resource_types(&r, &enums);
    assert!(body.contains("export interface UserPublic {"), "UserPublic missing");
    assert!(body.contains("  id: number"), "id field missing");
    assert!(body.contains("  email: string"), "email field missing");
}

#[test]
fn emits_insertable_interface() {
    let r = synth_resource();
    let enums: Vec<ParsedEnum> = Vec::new();
    let body = build_resource_types(&r, &enums);
    assert!(body.contains("export interface UserInsertable {"), "UserInsertable missing");
    assert!(!body.contains("  id: number\nexport interface UserInsertable"), "id should not be in insertable");
}

#[test]
fn emits_patch_with_optional_fields() {
    let r = synth_resource();
    let enums: Vec<ParsedEnum> = Vec::new();
    let body = build_resource_types(&r, &enums);
    assert!(body.contains("export interface UserPatch {"), "UserPatch missing");
    assert!(body.contains("  email?: string | null"), "email in patch must be optional");
}

#[test]
fn emits_filter_interface_when_list_verb_present() {
    let r = synth_resource();
    let enums: Vec<ParsedEnum> = Vec::new();
    let body = build_resource_types(&r, &enums);
    assert!(body.contains("export interface UserFilter {"), "UserFilter missing");
    assert!(body.contains("  email?: string | null"), "filter email must be optional string");
}

#[test]
fn ts_base_type_maps_common_types() {
    assert_eq!(ts_base_type(&SqlType::new("Int8")), "number");
    assert_eq!(ts_base_type(&SqlType::new("Varchar")), "string");
    assert_eq!(ts_base_type(&SqlType::new("Bool")), "boolean");
    assert_eq!(ts_base_type(&SqlType::new("Timestamptz")), "string");
    assert_eq!(ts_base_type(&SqlType::new("Jsonb")), "unknown");
    assert_eq!(ts_base_type(&SqlType::new("Uuid")), "string");
    assert_eq!(ts_base_type(&SqlType::new("unknown_type")), "string");
}

#[test]
fn meltdown_ts_exports_correct_shape() {
    let body = meltdown_ts();
    assert!(body.contains("export interface MeltDownResponse"));
    assert!(body.contains("export interface MeltDownError"));
    assert!(body.contains("code: number"));
    assert!(body.contains("type: string"));
    assert!(body.contains("message: string"));
    assert!(body.contains("context: Record<string, string> | null"));
}

#[test]
fn build_enum_module_emits_alias_and_values_const() {
    let body = build_enum_module("user_role", &vec!["admin".to_string(), "member".to_string()]);
    assert!(body.contains("export type UserRole = 'admin' | 'member'"), "alias missing");
    assert!(
        body.contains("export const USER_ROLE_VALUES: readonly UserRole[] = ['admin', 'member'] as const"),
        "values const missing"
    );
}

#[test]
fn build_enum_module_handles_single_variant() {
    let body = build_enum_module("flag", &vec!["only".to_string()]);
    assert!(body.contains("export type Flag = 'only'"));
    assert!(body.contains("export const FLAG_VALUES: readonly Flag[] = ['only'] as const"));
}

#[test]
fn build_enum_module_escapes_single_quotes_in_variants() {
    let body = build_enum_module("kind", &vec!["it's".to_string()]);
    assert!(body.contains("'it\\'s'"), "single-quote escape missing");
}

#[test]
fn collect_resource_enums_returns_empty_for_plain_resources() {
    let r = synth_resource();
    let enums: Vec<ParsedEnum> = Vec::new();
    assert!(collect_resource_enums(&r, &enums).is_empty());
}

#[test]
fn build_resource_types_emits_enum_alias_when_field_matches() {
    let mut r = synth_resource();
    r.fields.push((FieldName::new("role"), field("UserRole", all_variants(), false)));
    let enums = vec![parsed("user_role", &["admin", "member"])];
    let body = build_resource_types(&r, &enums);
    assert!(body.contains("import type { UserRole } from './user_role'"), "enum import missing: {body}");
    assert!(body.contains("  role: UserRole"), "role field with enum alias missing");
}

#[test]
fn collect_resource_enums_finds_match() {
    let mut r = synth_resource();
    r.fields.push((FieldName::new("status"), field("TaskStatus", vec![FieldVariant::Db, FieldVariant::Public], false)));
    let enums = vec![parsed("task_status", &["pending", "active"])];
    let collected = collect_resource_enums(&r, &enums);
    assert_eq!(collected.len(), 1);
    assert_eq!(collected[0].0, "task_status");
}

#[test]
fn enum_module_with_no_variants_is_never() {
    let body = build_enum_module("empty_kind", &Vec::new());
    assert_eq!(body, "export type EmptyKind = never\n\nexport const EMPTY_KIND_VALUES: readonly EmptyKind[] = [] as const\n");
}

#[test]
fn resource_without_list_verb_has_no_filter_interface() {
    let mut r = synth_resource();
    r.verbs.retain(|(v, _)| *v != Verb::List);
    let enums: Vec<ParsedEnum> = Vec::new();
    let body = build_resource_types(&r, &enums);
    assert!(!body.contains("UserFilter"));
    assert!(body.ends_with("}\n"));
    assert!(!body.ends_with("\n\n"));
}
