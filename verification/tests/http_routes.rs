use blast::codegen::http_routes::{build_mod_rs, build_resource_file, build_router_rs};
use blast::state::{
    AuthMode, FieldKind, FieldName, FieldState, FieldVariant, GenLevel, ResourceName, ResourceState, SessionFieldRef,
    SqlType, Verb, VerbState,
};

fn http_resource(table: &str, verbs: &[(Verb, bool)]) -> ResourceState {
    let id_field = FieldState {
        sql_type: SqlType::new("BIGSERIAL"),
        variants: vec![FieldVariant::Db, FieldVariant::Public],
        nullable: false,
        primary_key: true,
        validators: Vec::new(),
        kind: FieldKind::Plain,
    };
    let vs = verbs
        .iter()
        .map(|(v, rest)| (*v, VerbState { auth: AuthMode::Public, list_options: None, emit_rest_api: *rest, emit_html_page: true }))
        .collect();
    let mut r = ResourceState::new(ResourceName::new(table));
    r.fields = vec![(FieldName::new("id"), id_field)];
    r.verbs = vs;
    r
}

fn all_verbs() -> Vec<(Verb, bool)> {
    vec![(Verb::List, true), (Verb::Get, true), (Verb::Create, true), (Verb::Update, true), (Verb::Delete, true)]
}

#[test]
fn resource_file_has_every_handler_and_both_routes() {
    let body = build_resource_file(&http_resource("users", &all_verbs()));
    assert!(body.contains("pub async fn list("));
    assert!(body.contains("pub async fn get_one("));
    assert!(body.contains("pub async fn create("));
    assert!(body.contains("pub async fn update("));
    assert!(body.contains("pub async fn delete_one("));
    assert!(body.contains("pub fn router() -> Router<Ctx>"));
    assert!(body.contains("    router = router.route(\"/\", get(list).post(create));\n"));
    assert!(body.contains("    router = router.route(\"/:id\", get(get_one).patch(update).delete(delete_one));\n"));
    assert!(body.contains("use axum::routing::get;\n"));
    assert!(body.contains("use crate::structs::generated::users::{UserPublic, UserInsertable, UserPatch};\n"));
}

#[test]
fn validator_runs_before_flow_call() {
    let body = build_resource_file(&http_resource("users", &all_verbs()));
    let validator_pos = body.find("input.check()?;").expect("validator");
    let flow_pos = body.find("flow::create::run").expect("flow");
    assert!(validator_pos < flow_pos);
    let patch_pos = body.find("patch.check()?;").expect("patch validator");
    assert!(patch_pos < body.find("flow::update::run").unwrap());
    assert!(body.contains("use crate::structs::vendored::validators::Validate;"));
}

#[test]
fn routes_level_resource_skips_validation() {
    let mut r = http_resource("users", &all_verbs());
    r.gen_level = GenLevel::Route;
    let body = build_resource_file(&r);
    assert!(!body.contains("check()?"));
    assert!(!body.contains("Validate;"));
}

#[test]
fn rest_disabled_verbs_get_no_handler_or_route() {
    let body = build_resource_file(&http_resource("users", &[(Verb::List, true), (Verb::Get, false)]));
    assert!(body.contains("pub async fn list("));
    assert!(!body.contains("pub async fn get_one("));
    assert!(!body.contains(".route(\"/:id\""));
}

#[test]
fn routing_imports_are_sorted_and_braced() {
    let body = build_resource_file(&http_resource("posts", &[(Verb::Create, true), (Verb::Delete, true)]));
    assert!(body.contains("use axum::routing::{delete, post};\n"));
    assert!(body.contains("router.route(\"/\", post(create));"));
    assert!(body.contains("router.route(\"/:id\", delete(delete_one));"));
}

#[test]
fn session_fields_are_injected_into_create() {
    let mut r = http_resource("posts", &[(Verb::Create, true)]);
    r.fields.push((
        FieldName::new("author_id"),
        FieldState {
            sql_type: SqlType::new("Int8"),
            variants: vec![FieldVariant::Insertable],
            nullable: false,
            primary_key: false,
            validators: Vec::new(),
            kind: FieldKind::FromSession(SessionFieldRef::UserId),
        },
    ));
    let body = build_resource_file(&r);
    assert!(body.contains("Json(mut input): Json<PostInsertable>"));
    assert!(body.contains("    input.author_id = ctx.require_session()?.user_id;\n"));
}

#[test]
fn barrel_and_router_list_tables_sorted() {
    let rs = vec![http_resource("users", &all_verbs()), http_resource("accounts", &all_verbs())];
    assert_eq!(build_mod_rs(&rs), "pub mod accounts;\npub mod users;\npub mod router;\n\npub use router::router;\n");
    let router = build_router_rs(&rs);
    let a = router.find(".nest(\"/accounts\", super::accounts::router())").unwrap();
    let u = router.find(".nest(\"/users\", super::users::router())").unwrap();
    assert!(a < u);
}
