use blast::codegen::app_routes;
use blast::codegen::auth_emitter::runner::{auth_files, barrel_plan, merge_barrel};
use blast::codegen::build_rs_template::{render_template, write_action, WriteAction};
use blast::codegen::composables_v2;
use blast::codegen::env_example::env_example_file;
use blast::codegen::fe_runtime::{runtime_files, ScaffoldOutcome};
use blast::codegen::http_routes;
use blast::codegen::leptos_admin;
use blast::codegen::leptos_data;
use blast::codegen::leptos_data::render::render_api_client_module;
use blast::codegen::pipeline::needs_write;
use blast::state::app::{EnvSpecState, EnvVarSpec};
use blast::state::{
    AuthMode, FieldKind, FieldName, FieldState, FieldVariant, GenLevel, ListOptions, ResourceName, ResourceState,
    SqlType, TopicScope, Verb, VerbState, WsEventsState,
};

fn field(sql: &str, variants: Vec<FieldVariant>, pk: bool) -> FieldState {
    FieldState { sql_type: SqlType::new(sql), variants, nullable: false, primary_key: pk, validators: Vec::new(), kind: FieldKind::Plain }
}

fn resource(table: &str, verbs: &[(Verb, bool)], level: GenLevel, ws: Option<TopicScope>) -> ResourceState {
    let all_v = vec![FieldVariant::Db, FieldVariant::Insertable, FieldVariant::Patch, FieldVariant::Public];
    let fields = vec![
        (FieldName::new("id"), field("Int8", vec![FieldVariant::Db, FieldVariant::Public], true)),
        (FieldName::new("email"), field("Varchar", all_v, false)),
    ];
    let vs = verbs
        .iter()
        .map(|(v, rest)| {
            let list_options = match v {
                Verb::List => Some(ListOptions {
                    paginated: true,
                    filterable_columns: Vec::new(),
                    sortable_columns: Vec::new(),
                    default_sort: None,
                    max_page_size: None,
                }),
                _ => None,
            };
            (*v, VerbState { auth: AuthMode::Public, list_options, emit_html_page: true, emit_rest_api: *rest })
        })
        .collect();
    ResourceState {
        name: ResourceName::new(table),
        fields,
        verbs: vs,
        ws_events: ws.map(|topic_scope| WsEventsState { topic_scope }),
        singular_override: None,
        gen_level: level,
    }
}

fn all(rest: bool) -> Vec<(Verb, bool)> {
    vec![(Verb::List, rest), (Verb::Get, rest), (Verb::Create, rest), (Verb::Update, rest), (Verb::Delete, rest)]
}

fn only(verbs: &[Verb]) -> Vec<(Verb, bool)> {
    verbs.iter().map(|v| (*v, true)).collect()
}

fn body(files: &[(String, String)], name: &str) -> String {
    files.iter().find(|(n, _)| n == name).map(|(_, b)| b.clone()).expect("file present")
}

fn v2_users(verbs: &[Verb], ws: Option<TopicScope>) -> String {
    let files = composables_v2::runner::plan_files(&vec![resource("users", &only(verbs), GenLevel::Pages, ws)]);
    body(&files, "users.ts")
}

#[test]
fn emits_full_surface_when_all_verbs_present() {
    let files = composables_v2::runner::plan_files(&vec![resource("users", &all(true), GenLevel::Pages, None)]);
    let b = body(&files, "users.ts");
    assert!(b.contains("export function useUsersList"));
    assert!(b.contains("export function useUser("));
    assert!(b.contains("export function useCreateUser"));
    assert!(b.contains("export function useUpdateUser"));
    assert!(b.contains("export function useDeleteUser"));
    assert!(body(&files, "index.ts").contains("export * from './users'"));
}

#[test]
fn omits_disabled_verbs() {
    let b = v2_users(&[Verb::List, Verb::Get], None);
    assert!(b.contains("useUsersList"), "list emitted");
    assert!(b.contains("useUser("), "single emitted");
    assert!(!b.contains("useCreateUser"), "create not emitted");
    assert!(!b.contains("useUpdateUser"), "update not emitted");
    assert!(!b.contains("useDeleteUser"), "delete not emitted");
}

#[test]
fn list_emits_all_three_tier_triggers() {
    let b = v2_users(&[Verb::List], None);
    assert!(b.contains("const refetch"), "refetch fn present");
    assert!(b.contains("watchEffect"), "URL-driven refetch");
    assert!(b.contains("opts.poll !== undefined"), "poll guard");
    assert!(b.contains("document.visibilityState === 'visible'"), "visibility gate");
    assert!(b.contains("clearInterval(pollTimer)"), "poll cleanup");
    assert!(b.contains("opts.live === true"), "live guard");
    assert!(b.contains("useChannel('users/all')"), "live channel topic");
    assert!(b.contains("channel.lastEvent"), "channel watch");
}

#[test]
fn mutations_emit_bus_events_on_success() {
    let b = v2_users(&[Verb::Create, Verb::Update, Verb::Delete], None);
    assert!(b.contains("emit('users:created', result.data)"), "created event");
    assert!(b.contains("emit('users:updated', result.data)"), "updated event");
    assert!(b.contains("emit('users:deleted', { id })"), "deleted event");
}

#[test]
fn abort_signal_plumbed_through_fetches() {
    let b = v2_users(&[Verb::List, Verb::Get], None);
    assert!(b.contains("getNavAbortSignal()"), "nav signal pulled");
    assert!(b.contains("AbortController"), "controller created");
    assert!(b.contains("controller.signal"), "signal forwarded to API");
}

#[test]
fn forbidden_patterns_absent() {
    let b = v2_users(&[Verb::List, Verb::Get, Verb::Create, Verb::Update, Verb::Delete], None);
    assert!(!b.contains(": any"), "no `: any`");
    assert!(!b.contains(" as any"), "no `as any`");
    assert!(!b.contains("console.log"), "no console.log");
    assert!(!b.contains("new WebSocket"), "no raw WebSocket");
    assert!(!b.contains(" fetch(") && !b.contains("\tfetch(") && !b.contains("=fetch("), "no raw fetch");
    assert!(!b.contains("|| []"), "no || [] fallback");
    assert!(!b.contains("|| {}"), "no || {{}} fallback");
    assert!(!b.contains("?? []"), "no ?? [] fallback");
    assert!(!b.contains("?? {}"), "no ?? {{}} fallback");
    assert!(!b.contains("?? 0"), "no ?? 0 fallback");
    assert!(!b.contains("?? false"), "no ?? false fallback");
}

#[test]
fn snake_case_types_imported_intact() {
    let b = v2_users(&[Verb::List, Verb::Get, Verb::Create, Verb::Update], None);
    assert!(b.contains("UserPublic"), "UserPublic referenced");
    assert!(b.contains("UserInsertable"), "UserInsertable referenced");
    assert!(b.contains("UserPatch"), "UserPatch referenced");
}

#[test]
fn live_per_row_topic_emitted_when_ws_per_row() {
    let b = v2_users(&[Verb::Get], Some(TopicScope::PerRow));
    assert!(b.contains("useChannel(`users/${idForTopic.value}`)"), "per-row topic");
}

#[test]
fn create_handler_calls_validator_before_flow() {
    let files = http_routes::plan_files(vec![resource("users", &all(true), GenLevel::Pages, None)]);
    let b = body(&files, "users.rs");
    let validator_pos = b.find("input.check()?;").expect("validator call must be emitted");
    let flow_pos = b.find("flow::create::run(&ctx, input)").expect("flow call must be emitted");
    assert!(validator_pos < flow_pos, "validator must come before the flow call");
}

#[test]
fn update_handler_calls_validator_before_flow() {
    let files = http_routes::plan_files(vec![resource("users", &all(true), GenLevel::Pages, None)]);
    let b = body(&files, "users.rs");
    let validator_pos = b.find("patch.check()?;").expect("validator call must be emitted");
    let flow_pos = b.find("flow::update::run(").expect("flow call must be emitted");
    assert!(validator_pos < flow_pos, "validator must come before the flow call");
}

#[test]
fn validate_trait_imported_when_create_or_update_present() {
    let files = http_routes::plan_files(vec![resource("users", &only(&[Verb::Create]), GenLevel::Pages, None)]);
    let b = body(&files, "users.rs");
    assert!(b.contains("use crate::structs::vendored::validators::Validate;"), "must import Validate trait; got: {b}");
}

#[test]
fn emit_rest_api_false_skips_handler_and_route() {
    let files = http_routes::plan_files(vec![resource("users", &[(Verb::List, true), (Verb::Get, false)], GenLevel::Pages, None)]);
    let b = body(&files, "users.rs");
    assert!(b.contains("pub async fn list("), "list handler must emit");
    assert!(!b.contains("pub async fn get_one("), "get handler must not emit");
    assert!(!b.contains(".route(\"/:id\""), "item route must not emit");
}

#[test]
fn skips_unspecified_verbs() {
    let files = http_routes::plan_files(vec![resource("users", &only(&[Verb::List]), GenLevel::Pages, None)]);
    let b = body(&files, "users.rs");
    assert!(b.contains("pub async fn list("));
    assert!(!b.contains("pub async fn create("));
    assert!(!b.contains("pub async fn delete_one("));
    assert!(!b.contains(".route(\"/:id\""), "no item route when no item verbs");
}

fn posts_helpers() -> String {
    let files = leptos_data::runner::plan_files(vec![resource("posts", &all(true), GenLevel::Composables, None)]);
    body(&files, "posts.rs")
}

#[test]
fn each_helper_has_both_cfg_branches() {
    let b = posts_helpers();
    let ssr_count = b.matches("#[cfg(not(target_arch = \"wasm32\"))]").count();
    let wasm_count = b.matches("#[cfg(target_arch = \"wasm32\")]").count();
    assert!(ssr_count >= 5, "must have >= 5 ssr cfg blocks, got {ssr_count}: {b}");
    assert!(wasm_count >= 5, "must have >= 5 wasm cfg blocks, got {wasm_count}: {b}");
}

#[test]
fn ssr_branch_calls_flow_wasm_branch_calls_api_client() {
    let b = posts_helpers();
    assert!(b.contains("crate::flows::generated::posts::list::run"), "ssr list must call flow: {b}");
    assert!(b.contains("crate::flows::generated::posts::create::run"), "ssr create must call flow: {b}");
    assert!(b.contains("crate::flows::generated::posts::delete::run"), "ssr delete must call flow: {b}");
    assert!(b.contains("crate::transport::leptos::api_client::get_json"), "wasm get must call api_client: {b}");
    assert!(b.contains("crate::transport::leptos::api_client::post_json"), "wasm post must call api_client: {b}");
    assert!(b.contains("crate::transport::leptos::api_client::patch_json"), "wasm patch must call api_client: {b}");
    assert!(b.contains("crate::transport::leptos::api_client::delete"), "wasm delete must call api_client: {b}");
}

#[test]
fn signatures_match_locked_contract() {
    let b = posts_helpers();
    assert!(b.contains("pub async fn load_posts_list(query: ListQuery) -> ::std::result::Result<ListResponse<PostPublic>, MeltDown>"), "list signature: {b}");
    assert!(b.contains("pub async fn load_posts_one(id: i64) -> ::std::result::Result<PostPublic, MeltDown>"), "get signature: {b}");
    assert!(b.contains("pub async fn do_posts_create(input: PostInsertable) -> ::std::result::Result<PostPublic, MeltDown>"), "create signature: {b}");
    assert!(b.contains("pub async fn do_posts_update(id: i64, patch: PostPatch) -> ::std::result::Result<PostPublic, MeltDown>"), "update signature: {b}");
    assert!(b.contains("pub async fn do_posts_delete(id: i64) -> ::std::result::Result<(), MeltDown>"), "delete signature: {b}");
}

#[test]
fn api_client_emits_isomorphic_helpers() {
    let api_client = render_api_client_module();
    assert!(api_client.contains("pub async fn get_json"), "get_json missing");
    assert!(api_client.contains("pub async fn post_json"), "post_json missing");
}

#[test]
fn overwrites_placeholder_stub_emitted_by_leptos_pages() {
    let b = posts_helpers();
    assert!(needs_write(&Some("// placeholder stub\n".to_string()), &b));
}

#[test]
fn runner_idempotent_run() {
    let first = leptos_admin::runner::plan_files(vec![resource("posts", &all(true), GenLevel::Pages, None)]);
    let second = leptos_admin::runner::plan_files(vec![resource("posts", &all(true), GenLevel::Pages, None)]);
    assert_eq!(first, second);
    assert!(second.iter().all(|(_, b)| !needs_write(&Some(b.clone()), b)));
}

#[test]
fn idempotent_run_skips_byte_equal_files() {
    let first = app_routes::runner::plan_files(vec![resource("posts", &all(true), GenLevel::Pages, None)]);
    let second = app_routes::runner::plan_files(vec![resource("posts", &all(true), GenLevel::Pages, None)]);
    assert_eq!(first, second);
    assert!(second.iter().all(|(_, b)| !needs_write(&Some(b.clone()), b)));
}

#[test]
fn idempotent_second_run_skips_unchanged_files() {
    let marker = "// AUTO-GENERATED from storage/blast/state/app.ron @ abc\n\n";
    let files = auth_files(false, marker);
    assert_eq!(files, auth_files(false, marker));
    assert!(files.iter().all(|(_, b)| !needs_write(&Some(b.clone()), b)));
    for (_, entries) in barrel_plan(false) {
        let first = merge_barrel(&None, marker, &entries).expect("new barrel");
        assert!(merge_barrel(&Some(first), marker, &entries).is_none());
    }
}

#[test]
fn emits_env_example_with_three_vars() {
    let spec = EnvSpecState {
        vars: vec![
            (
                "DATABASE_URL".to_string(),
                EnvVarSpec { default: "postgres://localhost/myapp".to_string(), comment: Some("Postgres connection string".to_string()), sensitive: false },
            ),
            (
                "SESSION_SIGNING_KEY".to_string(),
                EnvVarSpec { default: String::new(), comment: Some("32-byte hex secret for session tokens".to_string()), sensitive: true },
            ),
            ("APP_PORT".to_string(), EnvVarSpec { default: "8080".to_string(), comment: None, sensitive: false }),
        ],
    };
    let content = env_example_file(&Some(spec), "// AUTO-GENERATED from storage/blast/state/app.ron @ abc\n").expect("file");
    assert!(content.contains("# AUTO-GENERATED from"));
    assert!(content.contains("storage/blast/state/app.ron"));
    let first_line = content.lines().next().expect("file has at least one line");
    assert!(first_line.starts_with('#'), "header first line must start with #, got: {first_line}");
    assert!(content.contains("# Postgres connection string\nDATABASE_URL=postgres://localhost/myapp"));
    assert!(content.contains("# 32-byte hex secret for session tokens\nSESSION_SIGNING_KEY=<changeme>"));
    assert!(content.contains("APP_PORT=8080"));
}

#[test]
fn skips_when_no_env_spec_section() {
    assert!(env_example_file(&None, "").is_none());
    assert!(env_example_file(&Some(EnvSpecState { vars: Vec::new() }), "").is_none());
}

#[test]
fn run_writes_all_files_in_empty_project() {
    let files = runtime_files("acme");
    let outcome = ScaffoldOutcome::from_existing(&files, &vec![false; files.len()]);
    assert_eq!(outcome.written.len(), 11);
    assert_eq!(outcome.skipped.len(), 0);
}

#[test]
fn run_substitutes_app_name_into_index_html() {
    let files = runtime_files("acme-corp");
    let index = files.iter().find(|(p, _)| p.ends_with("index.html")).expect("index.html");
    assert!(index.1.contains("<title>acme-corp</title>"));
    assert!(!index.1.contains("{{APP_NAME}}"));
}

#[test]
fn run_is_idempotent_and_skips_existing_files() {
    let files = runtime_files("acme");
    let second = ScaffoldOutcome::from_existing(&files, &vec![true; files.len()]);
    assert_eq!(second.written.len(), 0);
    assert_eq!(second.skipped.len(), 11);
}

#[test]
fn run_creates_file() {
    assert_eq!(write_action(false), WriteAction::Created);
    assert!(render_template().contains("fn main()"));
}

#[test]
fn run_overwrites_existing_file() {
    assert_eq!(write_action(true), WriteAction::Overwritten);
    assert!(render_template().contains("fn main()"));
}
