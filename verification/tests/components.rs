use blast::codegen::components::render::{collect_fields, empty_value, forms_for_resource, humanize, render_enum_imports};
use blast::codegen::enums::scan::ParsedEnum;
use blast::state::{
    AuthMode, FieldKind, FieldName, FieldState, FieldVariant, GenLevel, ResourceName, ResourceState, SqlType, Verb,
    VerbState,
};

fn form_field(sql: &str, variants: Vec<FieldVariant>, pk: bool) -> FieldState {
    FieldState {
        sql_type: SqlType::new(sql),
        variants,
        nullable: false,
        primary_key: pk,
        validators: Vec::new(),
        kind: FieldKind::Plain,
    }
}

fn all_variants() -> Vec<FieldVariant> {
    vec![FieldVariant::Db, FieldVariant::Insertable, FieldVariant::Patch, FieldVariant::Public]
}

fn synth_form_resource() -> ResourceState {
    let id_v = vec![FieldVariant::Db, FieldVariant::Public];
    let fields = vec![
        (FieldName::new("id"), form_field("Int8", id_v, true)),
        (FieldName::new("email"), form_field("Varchar", all_variants(), false)),
        (FieldName::new("active"), form_field("Bool", all_variants(), false)),
    ];
    let mut verbs = Vec::new();
    for v in [Verb::Create, Verb::Update] {
        verbs.push((v, VerbState { auth: AuthMode::Public, list_options: None, emit_html_page: true, emit_rest_api: true }));
    }
    ResourceState {
        name: ResourceName::new("users"),
        fields,
        verbs,
        ws_events: None,
        singular_override: None,
        gen_level: GenLevel::Pages,
    }
}

fn body_of(pairs: &[(String, String)], name: &str) -> String {
    pairs.iter().find(|(n, _)| n == name).map(|(_, body)| body.clone()).expect("form produced")
}

#[test]
fn create_form_imports_required_primevue_components() {
    let r = synth_form_resource();
    let enums: Vec<ParsedEnum> = Vec::new();
    let pairs = forms_for_resource(&r, &enums);
    let create = body_of(&pairs, "CreateForm.vue");
    assert!(create.contains("from 'primevue/checkbox'"), "Checkbox import missing");
    assert!(create.contains("from 'primevue/inputtext'"), "InputText import missing");
    assert!(create.contains("from 'primevue/button'"), "Button import missing");
}

#[test]
fn create_form_does_not_include_primary_key_field() {
    let r = synth_form_resource();
    let enums: Vec<ParsedEnum> = Vec::new();
    let pairs = forms_for_resource(&r, &enums);
    let create = body_of(&pairs, "CreateForm.vue");
    assert!(!create.contains("v-model=\"form.id\""));
}

#[test]
fn edit_form_imports_patch_and_public_types() {
    let r = synth_form_resource();
    let enums: Vec<ParsedEnum> = Vec::new();
    let pairs = forms_for_resource(&r, &enums);
    let edit = body_of(&pairs, "EditForm.vue");
    assert!(edit.contains("UserPatch"), "UserPatch type missing");
    assert!(edit.contains("UserPublic"), "UserPublic type missing");
    assert!(edit.contains("updateUser"), "updateUser API call missing");
}

#[test]
fn create_form_calls_create_api() {
    let r = synth_form_resource();
    let enums: Vec<ParsedEnum> = Vec::new();
    let pairs = forms_for_resource(&r, &enums);
    let create = body_of(&pairs, "CreateForm.vue");
    assert!(create.contains("createUser"), "createUser API call missing");
    assert!(create.contains("UserInsertable"), "UserInsertable type missing");
}

#[test]
fn humanize_converts_snake_to_title() {
    assert_eq!(humanize("email_address"), "Email address");
    assert_eq!(humanize("first_name"), "First name");
    assert_eq!(humanize("name"), "Name");
}

#[test]
fn render_enum_imports_is_empty_when_no_enum_fields() {
    let r = synth_form_resource();
    let enums: Vec<ParsedEnum> = Vec::new();
    let fields = collect_fields(&r, FieldVariant::Insertable);
    let block = render_enum_imports(&fields, &enums);
    assert!(block.is_empty(), "no enum fields means no enum imports, got {block}");
}

#[test]
fn empty_value_for_plain_text_is_empty_string() {
    let enums: Vec<ParsedEnum> = Vec::new();
    assert_eq!(empty_value(&SqlType::new("Varchar"), false, &enums), "''");
    assert_eq!(empty_value(&SqlType::new("Bool"), false, &enums), "false");
    assert_eq!(empty_value(&SqlType::new("Int8"), false, &enums), "0");
    assert_eq!(empty_value(&SqlType::new("Int4"), true, &enums), "null");
}

#[test]
fn create_form_uses_dropdown_for_enum_field() {
    let mut r = synth_form_resource();
    r.fields.push((FieldName::new("role"), form_field("UserRole", all_variants(), false)));
    let enums = vec![ParsedEnum {
        name: "user_role".to_string(),
        variants: vec!["admin".to_string(), "member".to_string()],
        source_file: "/tmp/dummy.sql".to_string(),
    }];
    let pairs = forms_for_resource(&r, &enums);
    let create = body_of(&pairs, "CreateForm.vue");
    assert!(create.contains("from 'primevue/dropdown'"), "Dropdown import missing: {create}");
    assert!(create.contains("USER_ROLE_VALUES"), "options const reference missing");
    assert!(create.contains("import { USER_ROLE_VALUES } from '@/generated/types/user_role'"), "enum values import missing");
    assert!(create.contains("import type { UserRole } from '@/generated/types/user_role'"), "enum type import missing");
    assert!(create.contains(":options=\"USER_ROLE_VALUES\""), "Dropdown options binding missing");
}

#[test]
fn enum_field_defaults_to_first_option() {
    let enums = vec![ParsedEnum {
        name: "user_role".to_string(),
        variants: vec!["admin".to_string()],
        source_file: "/tmp/dummy.sql".to_string(),
    }];
    assert_eq!(empty_value(&SqlType::new("UserRole"), false, &enums), "USER_ROLE_VALUES[0]");
    assert_eq!(empty_value(&SqlType::new("UserRole"), true, &enums), "null");
    assert_eq!(empty_value(&SqlType::new("Timestamptz"), false, &enums), "null");
}

#[test]
fn resource_without_writable_fields_gets_no_forms() {
    let mut r = synth_form_resource();
    r.fields.truncate(1);
    let enums: Vec<ParsedEnum> = Vec::new();
    assert!(forms_for_resource(&r, &enums).is_empty());
}

#[test]
fn primevue_imports_are_sorted_and_distinct() {
    let mut r = synth_form_resource();
    r.fields.push((FieldName::new("nickname"), form_field("Text", all_variants(), false)));
    let enums: Vec<ParsedEnum> = Vec::new();
    let pairs = forms_for_resource(&r, &enums);
    let create = body_of(&pairs, "CreateForm.vue");
    assert_eq!(create.matches("from 'primevue/inputtext'").count(), 1);
    let cb = create.find("from 'primevue/checkbox'").unwrap();
    let it = create.find("from 'primevue/inputtext'").unwrap();
    assert!(cb < it);
}
