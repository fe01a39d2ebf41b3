use blast::codegen::enums::scan::ParsedEnum;
use blast::codegen::leptos_forms::render::{
    find_enum_for_field, render_components_generated_mod, render_create_form, render_data_barrel, render_data_stub,
    render_edit_form, render_resource_form_barrel, render_top_forms_barrel,
};
use blast::state::{
    AuthMode, FieldKind, FieldName, FieldState, FieldVariant, GenLevel, ResourceName, ResourceState, SqlType, Verb,
    VerbState,
};

fn field(sql: &str, variants: Vec<FieldVariant>, pk: bool) -> FieldState {
    FieldState {
        sql_type: SqlType::new(sql),
        variants,
        nullable: false,
        primary_key: pk,
        validators: Vec::new(),
        kind: FieldKind::Plain,
    }
}

fn users(verbs: &[Verb], with_pk: bool) -> ResourceState {
    let mut fields = Vec::new();
    if with_pk {
        fields.push((FieldName::new("id"), field("Int8", vec![FieldVariant::Db, FieldVariant::Public], true)));
    }
    fields.push((
        FieldName::new("email"),
        field("Text", vec![FieldVariant::Db, FieldVariant::Public, FieldVariant::Insertable, FieldVariant::Patch], false),
    ));
    let vs = verbs
        .iter()
        .map(|v| (*v, VerbState { auth: AuthMode::AuthRequired, list_options: None, emit_rest_api: true, emit_html_page: true }))
        .collect();
    ResourceState { name: ResourceName::new("users"), fields, verbs: vs, ws_events: None, singular_override: None, gen_level: GenLevel::Pages }
}

#[test]
fn create_form_names_component_and_data_call() {
    let body = render_create_form(&users(&[Verb::Create], true), &[]);
    assert!(body.contains("pub fn UserCreateForm() -> impl IntoView {"), "{body}");
    assert!(body.contains("use crate::transport::leptos::data::generated::users::do_users_create;"), "{body}");
    assert!(body.contains("email"), "{body}");
}

#[test]
fn edit_form_takes_initial_public_value() {
    let body = render_edit_form(&users(&[Verb::Update], true), &[]);
    assert!(body.contains("pub fn UserEditForm(initial: UserPublic"), "{body}");
    assert!(body.contains("do_users_update"), "{body}");
}

#[test]
fn form_barrel_lists_create_and_edit() {
    let barrel = render_resource_form_barrel(&users(&[Verb::Create, Verb::Update], true));
    assert_eq!(
        barrel,
        "pub mod create_form;\npub mod edit_form;\n\npub use create_form::UserCreateForm;\npub use edit_form::UserEditForm;\n"
    );
}

#[test]
fn form_barrel_skips_edit_without_primary_key() {
    let barrel = render_resource_form_barrel(&users(&[Verb::Create, Verb::Update], false));
    assert_eq!(barrel, "pub mod create_form;\n\npub use create_form::UserCreateForm;\n");
}

#[test]
fn form_barrel_empty_without_form_verbs() {
    assert_eq!(render_resource_form_barrel(&users(&[Verb::List, Verb::Get], true)), "");
}

#[test]
fn data_stub_header_and_create_stub() {
    let stub = render_data_stub(&users(&[Verb::Create], true));
    assert!(stub.starts_with(
        "use crate::meltdown::{MeltDown, MeltType};\nuse crate::structs::generated::users::{UserInsertable, UserPatch, UserPublic};\n\n"
    ));
    assert!(stub.contains("pub async fn do_users_create(input: UserInsertable) -> ::std::result::Result<UserPublic, MeltDown> {"));
    assert!(!stub.contains("do_users_update"));
}

#[test]
fn data_stub_update_uses_primary_key_type() {
    let stub = render_data_stub(&users(&[Verb::Update], true));
    assert!(stub.contains("pub async fn do_users_update(id: i64, patch: UserPatch)"), "{stub}");
    assert!(!stub.contains("do_users_create"));
}

#[test]
fn top_barrels_are_sorted_module_lists() {
    assert_eq!(render_top_forms_barrel(&["widgets", "accounts"]), "pub mod accounts;\npub mod widgets;\n");
    assert_eq!(render_data_barrel(&["b", "a", "c"]), "pub mod a;\npub mod b;\npub mod c;\n");
    assert_eq!(render_top_forms_barrel(&[]), "");
}

#[test]
fn components_generated_mod_declares_forms() {
    assert_eq!(render_components_generated_mod(), "pub mod forms;\n");
}

#[test]
fn enum_lookup_ignores_case_of_pascal_name() {
    let enums = vec![
        ParsedEnum { name: "order_state".to_string(), variants: vec!["open".to_string()], source_file: "a.sql".to_string() },
        ParsedEnum { name: "user_role".to_string(), variants: vec!["admin".to_string()], source_file: "b.sql".to_string() },
    ];
    let f = field("UserRole", vec![FieldVariant::Db], false);
    let found = find_enum_for_field(&f, &enums).expect("user_role matches");
    assert_eq!(found.name, "user_role");
    let g = field("Text", vec![FieldVariant::Db], false);
    assert!(find_enum_for_field(&g, &enums).is_none());
}
