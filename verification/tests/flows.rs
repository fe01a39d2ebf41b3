use blast::codegen::flows::{auth_check_block, barrel_body, render_top_barrel, resource_flow_files, verb_stub_body};
use blast::state::{
    AuthMode, FieldKind, FieldName, FieldState, FieldVariant, GenLevel, ResourceName, ResourceState, SqlType, Verb,
    VerbState,
};

#[test]
fn auth_check_block_handles_all_modes() {
    assert!(auth_check_block(&AuthMode::Public).is_empty());
    assert_eq!(auth_check_block(&AuthMode::AuthRequired), "ctx.require_session()?;");
    assert_eq!(auth_check_block(&AuthMode::AdminOnly), "ctx.require_any(&[UserRole::Admin])?;");
    let roles = vec![String::from("zeta"), String::from("alpha_team")];
    assert_eq!(auth_check_block(&AuthMode::Roles(roles)), "ctx.require_any(&[UserRole::AlphaTeam, UserRole::Zeta])?;");
    let scoped = auth_check_block(&AuthMode::ScopedTo(FieldName::new("owner_id")));
    assert!(scoped.contains("owner_id"));
    assert!(scoped.contains("require_session()?;"));
}

fn flows_resource() -> ResourceState {
    let fields = vec![(
        FieldName::new("id"),
        FieldState {
            sql_type: SqlType::new("BIGINT"),
            variants: vec![FieldVariant::Public],
            nullable: false,
            primary_key: true,
            validators: Vec::new(),
            kind: FieldKind::Plain,
        },
    )];
    let vs = |auth: AuthMode| VerbState { auth, list_options: None, emit_rest_api: true, emit_html_page: true };
    let verbs = vec![
        (Verb::List, vs(AuthMode::AuthRequired)),
        (Verb::Get, vs(AuthMode::Public)),
        (Verb::Create, vs(AuthMode::AdminOnly)),
        (Verb::Update, vs(AuthMode::Roles(vec![String::from("editor"), String::from("admin")]))),
        (Verb::Delete, vs(AuthMode::AdminOnly)),
    ];
    ResourceState { name: ResourceName::new("users"), fields, verbs, ws_events: None, singular_override: None, gen_level: GenLevel::Pages }
}

fn body_named(files: &[(String, String)], name: &str) -> String {
    files.iter().find(|(n, _)| n == name).map(|(_, b)| b.clone()).expect("file present")
}

#[test]
fn flow_files_cover_every_verb() {
    let files = resource_flow_files(&flows_resource());
    let names: Vec<&str> = files.iter().map(|(n, _)| n.as_str()).collect();
    assert_eq!(names, vec!["mod.rs", "list.rs", "get.rs", "create.rs", "update.rs", "delete.rs"]);
    let list_body = body_named(&files, "list.rs");
    assert!(list_body.contains("    ctx.require_session()?;\n"));
    assert!(list_body.contains("Crank::none().run(|| routines::generated::users::list::run(ctx, query.clone()))"));
    let get_body = body_named(&files, "get.rs");
    assert!(!get_body.contains("require_session"));
    assert!(get_body.contains("routines::generated::users::get::run(ctx, id)"));
    let create_body = body_named(&files, "create.rs");
    assert!(create_body.contains("ctx.require_any(&[UserRole::Admin])?;"));
    assert!(create_body.contains("use crate::structs::UserRole;"));
    let update_body = body_named(&files, "update.rs");
    assert!(update_body.contains("ctx.require_any(&[UserRole::Admin, UserRole::Editor])?;"));
    assert!(update_body.contains("routines::generated::users::update::run(ctx, id, patch.clone())"));
    let mod_body = body_named(&files, "mod.rs");
    assert_eq!(mod_body, "pub mod list;\npub mod get;\npub mod create;\npub mod update;\npub mod delete;\n");
}

#[test]
fn delete_stub_has_no_struct_import_and_unit_result() {
    let body = verb_stub_body("users", Verb::Delete, &AuthMode::Public);
    assert_eq!(
        body,
        "use crate::crank::Crank;\nuse crate::meltdown::MeltDown;\nuse crate::routines;\nuse crate::Ctx;\n\npub async fn run(ctx: &Ctx, id: i64) -> Result<(), MeltDown> {\n    Crank::none().run(|| routines::generated::users::delete::run(ctx, id)).await\n}\n"
    );
}

#[test]
fn scoped_auth_is_indented_line_by_line() {
    let body = verb_stub_body("categories", Verb::Get, &AuthMode::ScopedTo(FieldName::new("owner_id")));
    assert!(body.contains("-> Result<CategoryPublic, MeltDown> {\n    ctx.require_session()?;\n    // TODO(catalyst): verify resource.owner_id"));
}

#[test]
fn barrels_list_modules() {
    assert_eq!(barrel_body(&[Verb::Get, Verb::List]), "pub mod get;\npub mod list;\n");
    assert_eq!(render_top_barrel(&["users", "accounts"]), "pub mod accounts;\npub mod users;\n");
}

#[test]
fn duplicate_roles_appear_once() {
    let roles = vec![String::from("b"), String::from("a"), String::from("b")];
    assert_eq!(auth_check_block(&AuthMode::Roles(roles)), "ctx.require_any(&[UserRole::A, UserRole::B])?;");
}
