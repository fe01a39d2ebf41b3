use blast::codegen::header::{marker_for_app, marker_for_resource, marker_for_schema, marker_for_state_file};
use blast::state::{
    AuthMode, FieldKind, FieldName, FieldState, FieldVariant, GenLevel, ResourceName, ResourceState, SqlType, Verb,
    VerbState,
};

fn plain(sql: &str) -> FieldState {
    FieldState {
        sql_type: SqlType::new(sql),
        variants: vec![FieldVariant::Db],
        nullable: false,
        primary_key: false,
        validators: Vec::new(),
        kind: FieldKind::Plain,
    }
}

fn empty_resource() -> ResourceState {
    ResourceState {
        name: ResourceName::new("posts"),
        fields: Vec::new(),
        verbs: Vec::new(),
        ws_events: None,
        singular_override: None,
        gen_level: GenLevel::Pages,
    }
}

#[test]
fn inserting_a_new_field_appends_it() {
    let mut r = empty_resource();
    r.insert_field(FieldName::new("id"), plain("Int8"));
    r.insert_field(FieldName::new("title"), plain("Text"));
    let names: Vec<&str> = r.fields.iter().map(|(n, _)| n.as_str()).collect();
    assert_eq!(names, vec!["id", "title"]);
}

#[test]
fn inserting_an_existing_field_replaces_it_in_place() {
    let mut r = empty_resource();
    r.insert_field(FieldName::new("id"), plain("Int8"));
    r.insert_field(FieldName::new("title"), plain("Text"));
    r.insert_field(FieldName::new("id"), plain("Uuid"));
    assert_eq!(r.fields.len(), 2);
    assert_eq!(r.fields[0].0.as_str(), "id");
    assert_eq!(r.fields[0].1.sql_type.as_str(), "Uuid");
    assert_eq!(r.fields[1].1.sql_type.as_str(), "Text");
}

#[test]
fn inserting_verbs_declares_them_once() {
    let mut r = empty_resource();
    let state = || VerbState { auth: AuthMode::AuthRequired, list_options: None, emit_rest_api: true, emit_html_page: false };
    r.insert_verb(Verb::List, state());
    r.insert_verb(Verb::Get, state());
    r.insert_verb(Verb::List, VerbState { auth: AuthMode::AuthRequired, list_options: None, emit_rest_api: false, emit_html_page: true });
    assert!(r.has_verb(Verb::List));
    assert!(r.has_verb(Verb::Get));
    assert!(!r.has_verb(Verb::Create));
    assert_eq!(r.verbs.len(), 2);
}

#[test]
fn markers_name_their_state_files() {
    assert_eq!(marker_for_state_file("/p", "/p/storage/x.ron").unwrap(), "");
    assert_eq!(
        marker_for_resource("/p", "posts", "ab12").unwrap(),
        "// AUTO-GENERATED from storage/blast/state/resources/posts.ron @ ab12\n//\n// Do not edit by hand.\n\n"
    );
    assert_eq!(
        marker_for_app("/p", "deadbeef").unwrap(),
        "// AUTO-GENERATED from storage/blast/state/app.ron @ deadbeef\n//\n// Do not edit by hand.\n\n"
    );
    assert_eq!(
        marker_for_schema("/p", "0").unwrap(),
        "// AUTO-GENERATED from src/database/schema.rs @ 0\n//\n// Do not edit by hand.\n\n"
    );
}
