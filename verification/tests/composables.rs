use blast::codegen::composables::render::{build_resource_composables, plural_of_pascal};
use blast::state::{
    AuthMode, FieldKind, FieldName, FieldState, FieldVariant, GenLevel, ListOptions, ResourceName, ResourceState,
    SqlType, TopicScope, Verb, VerbState, WsEventsState,
};

fn field(sql: &str, variants: Vec<FieldVariant>, pk: bool) -> FieldState {
    FieldState {
        sql_type: SqlType::new(sql),
        variants,
        nullable: false,
        primary_key: pk,
        validators: Vec::new(),
        kind: FieldKind::Plain,
    }
}

fn synth_resource_all_verbs() -> ResourceState {
    let all_v = vec![FieldVariant::Db, FieldVariant::Insertable, FieldVariant::Patch, FieldVariant::Public];
    let id_v = vec![FieldVariant::Db, FieldVariant::Public];
    let fields = vec![
        (FieldName::new("id"), field("Int8", id_v, true)),
        (FieldName::new("email"), field("Varchar", all_v, false)),
    ];
    let mut verbs = Vec::new();
    for v in [Verb::List, Verb::Get, Verb::Create, Verb::Update, Verb::Delete] {
        let list_options = match v {
            Verb::List => Some(ListOptions { paginated: true, filterable_columns: Vec::new(), sortable_columns: Vec::new(), default_sort: None, max_page_size: None }),
            _ => None,
        };
        verbs.push((v, VerbState { auth: AuthMode::Public, list_options, emit_html_page: true, emit_rest_api: true }));
    }
    ResourceState {
        name: ResourceName::new("users"),
        fields,
        verbs,
        ws_events: None,
        singular_override: None,
        gen_level: GenLevel::Pages,
    }
}

fn synth_resource_with_ws() -> ResourceState {
    let mut r = synth_resource_all_verbs();
    r.ws_events = Some(WsEventsState { topic_scope: TopicScope::Global });
    r
}

#[test]
fn exports_all_verb_composables() {
    let r = synth_resource_all_verbs();
    let body = build_resource_composables(&r);
    assert!(body.contains("export function useUsersList("), "useUsersList missing");
    assert!(body.contains("export function useUser("), "useUser missing");
    assert!(body.contains("export function useCreateUser("), "useCreateUser missing");
    assert!(body.contains("export function useUpdateUser("), "useUpdateUser missing");
    assert!(body.contains("export function useDeleteUser("), "useDeleteUser missing");
}

#[test]
fn imports_url_state_primitive() {
    let r = synth_resource_all_verbs();
    let body = build_resource_composables(&r);
    assert!(body.contains("from '@/composables/url'"), "must import useUrlListState from hand-written primitive");
    assert!(!body.contains("from '@/generated/composables/url'"), "must NOT import url from generated");
}

#[test]
fn imports_api_client() {
    let r = synth_resource_all_verbs();
    let body = build_resource_composables(&r);
    assert!(body.contains("from '@/generated/api/users'"), "must import API client");
    assert!(body.contains("listUsers"));
    assert!(body.contains("getUser"));
    assert!(body.contains("createUser"));
    assert!(body.contains("updateUser"));
    assert!(body.contains("deleteUser"));
}

#[test]
fn imports_types() {
    let r = synth_resource_all_verbs();
    let body = build_resource_composables(&r);
    assert!(body.contains("from '@/generated/types/users'"), "must import types");
    assert!(body.contains("from '@/generated/types/meltdown'"), "must import meltdown");
}

#[test]
fn list_uses_abort_controller() {
    let r = synth_resource_all_verbs();
    let body = build_resource_composables(&r);
    assert!(body.contains("AbortController"), "must thread abort controller");
    assert!(body.contains(".abort()"), "must abort in-flight requests");
}

#[test]
fn list_uses_url_state_not_local_refs() {
    let r = synth_resource_all_verbs();
    let body = build_resource_composables(&r);
    assert!(body.contains("useUrlListState()"), "must call useUrlListState");
    assert!(body.contains("watch([page, pageSize, sort, filter]"), "must watch URL state writableComputedRefs");
}

#[test]
fn list_exposes_total_and_total_pages() {
    let r = synth_resource_all_verbs();
    let body = build_resource_composables(&r);
    assert!(body.contains("total: Ref<number>"), "must expose total");
    assert!(body.contains("total_pages: Ref<number>"), "must expose total_pages (snake_case)");
}

#[test]
fn list_handles_visibility_change_for_polling() {
    let r = synth_resource_all_verbs();
    let body = build_resource_composables(&r);
    assert!(body.contains("visibilitychange"), "must register visibilitychange listener");
    assert!(body.contains("document.visibilityState === 'hidden'"), "must check hidden state");
}

#[test]
fn list_does_not_subscribe_when_no_ws_events() {
    let r = synth_resource_all_verbs();
    let body = build_resource_composables(&r);
    assert!(!body.contains("useChannel"), "no useChannel when no ws_events");
}

#[test]
fn list_subscribes_when_ws_events_present() {
    let r = synth_resource_with_ws();
    let body = build_resource_composables(&r);
    assert!(body.contains("useChannel"), "must use useChannel when ws_events present");
    assert!(body.contains("'users.changed'"), "must subscribe to <table>.changed topic");
}

#[test]
fn item_composable_takes_ref_id_and_watches_changes() {
    let r = synth_resource_all_verbs();
    let body = build_resource_composables(&r);
    assert!(body.contains("export function useUser(id: Ref<number>)"));
    assert!(body.contains("watch(id"), "must watch id changes");
}

#[test]
fn mutation_composables_return_async_fns() {
    let r = synth_resource_all_verbs();
    let body = build_resource_composables(&r);
    assert!(body.contains("UserInsertable) =>"), "create mutation takes Insertable");
    assert!(body.contains("UserPatch) =>"), "update mutation takes Patch");
}

#[test]
fn no_optimistic_updates_in_mutations() {
    let r = synth_resource_all_verbs();
    let body = build_resource_composables(&r);
    assert!(!body.contains(".push("), "no array push in composables");
    assert!(!body.contains(".filter("), "no array filter in composables");
}

#[test]
fn no_console_log() {
    let r = synth_resource_all_verbs();
    let body = build_resource_composables(&r);
    assert!(!body.contains("console.log"), "no console.log");
    assert!(!body.contains("console.warn"), "no console.warn");
    assert!(!body.contains("console.error"), "no console.error");
}

#[test]
fn no_any_type() {
    let r = synth_resource_all_verbs();
    let body = build_resource_composables(&r);
    assert!(!body.contains(": any"), "no :any");
    assert!(!body.contains("as any"), "no as any");
    assert!(!body.contains("<any>"), "no <any>");
}

#[test]
fn no_silent_fallbacks() {
    let r = synth_resource_all_verbs();
    let body = build_resource_composables(&r);
    assert!(!body.contains("?? []"), "fallback ?? bracket");
    assert!(!body.contains("?? {}"), "fallback ?? brace");
    assert!(!body.contains("?? 0"), "fallback ?? zero");
    assert!(!body.contains("|| []"), "fallback double-pipe bracket");
}

#[test]
fn no_raw_fetch_call() {
    let r = synth_resource_all_verbs();
    let body = build_resource_composables(&r);
    for line in body.lines() {
        let trimmed = line.trim_start();
        if trimmed.starts_with("await fetch(") || trimmed.contains(" fetch(") || trimmed.contains("=fetch(") || trimmed.contains("(fetch(") {
            panic!("raw fetch found: {}", line);
        }
    }
    assert!(!body.contains("new WebSocket"), "no raw WS — must go through useChannel");
}

#[test]
fn no_pinia_imports() {
    let r = synth_resource_all_verbs();
    let body = build_resource_composables(&r);
    assert!(!body.contains("from 'pinia'"));
}

#[test]
fn plural_of_pascal_for_users() {
    assert_eq!(plural_of_pascal("User", "users"), "Users");
}

#[test]
fn plural_of_pascal_for_user_accounts() {
    assert_eq!(plural_of_pascal("UserAccount", "user_accounts"), "UserAccounts");
}

#[test]
fn composables_module_ends_with_single_newline() {
    let r = synth_resource_all_verbs();
    let body = build_resource_composables(&r);
    assert!(body.ends_with("}\n"));
    assert!(!body.ends_with("\n\n"));
    assert!(body.starts_with("import { ref, watch, onMounted, onUnmounted } from 'vue'\n"));
}

#[test]
fn plural_of_pascal_falls_back_to_suffix() {
    assert_eq!(plural_of_pascal("Person", "people"), "Persons");
}

#[test]
fn resource_without_verbs_imports_only_ref() {
    let mut r = synth_resource_all_verbs();
    r.verbs = Vec::new();
    let body = build_resource_composables(&r);
    assert_eq!(
        body,
        "import { ref } from 'vue'\nimport type { Ref } from 'vue'\nimport type { MeltDownResponse } from '@/generated/types/meltdown'\n"
    );
}
