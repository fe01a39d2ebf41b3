use blast::codegen::composables_v2::naming::{bus_prefix, file_stem, plural_pascal, singular_pascal};
use blast::codegen::composables_v2::render::build_resource_ts;
use blast::state::{
    AuthMode, FieldKind, FieldName, FieldState, FieldVariant, GenLevel, ResourceName, ResourceState, SqlType,
    TopicScope, Verb, VerbState, WsEventsState,
};

fn v2_resource(table: &str, verbs: &[Verb]) -> ResourceState {
    let fields = vec![(
        FieldName::new("id"),
        FieldState {
            sql_type: SqlType::new("Int8"),
            variants: vec![FieldVariant::Db, FieldVariant::Public],
            nullable: false,
            primary_key: true,
            validators: Vec::new(),
            kind: FieldKind::Plain,
        },
    )];
    let vs = verbs
        .iter()
        .map(|v| (*v, VerbState { auth: AuthMode::Public, list_options: None, emit_html_page: true, emit_rest_api: true }))
        .collect();
    ResourceState {
        name: ResourceName::new(table),
        fields,
        verbs: vs,
        ws_events: None,
        singular_override: None,
        gen_level: GenLevel::Pages,
    }
}

#[test]
fn singular_pascal_handles_basic_table() {
    let r = ResourceState::new(ResourceName::new("users"));
    assert_eq!(singular_pascal(&r), "User");
}

#[test]
fn singular_pascal_honours_override() {
    let mut r = ResourceState::new(ResourceName::new("data"));
    r.singular_override = Some("datum".to_string());
    assert_eq!(singular_pascal(&r), "Datum");
}

#[test]
fn plural_pascal_pascalizes_table_name() {
    assert_eq!(plural_pascal("users"), "Users");
    assert_eq!(plural_pascal("user_accounts"), "UserAccounts");
}

#[test]
fn plural_pascal_splits_on_hyphens() {
    assert_eq!(plural_pascal("blog-posts"), "BlogPosts");
}

#[test]
fn bus_prefix_uses_table_name() {
    assert_eq!(bus_prefix("users"), "users");
}

#[test]
fn file_stem_uses_table_name() {
    assert_eq!(file_stem("users"), "users");
}

#[test]
fn list_only_resource_emits_only_list_composable() {
    let r = v2_resource("users", &[Verb::List]);
    let body = build_resource_ts(&r);
    assert!(body.starts_with("import { onMounted, onUnmounted, ref, watch, watchEffect } from 'vue'\n"));
    assert!(body.contains("import type { UserPublic, UserFilter } from '@/generated/types/users'\n"));
    assert!(body.contains("import { listUsers as apiList } from '@/generated/api/users'\n"));
    assert!(body.contains("export function useUsersList(opts: UseUsersListOpts = {}) {"));
    assert!(body.contains("useChannel('users/all')"));
    assert!(!body.contains("useCreateUser"));
}

#[test]
fn per_row_topic_adds_live_block_to_single_composable() {
    let mut r = v2_resource("users", &[Verb::Get]);
    let plain = build_resource_ts(&r);
    assert!(!plain.contains("idForTopic"));
    r.ws_events = Some(WsEventsState { topic_scope: TopicScope::PerRow });
    let live = build_resource_ts(&r);
    assert!(live.contains("useChannel(`users/${idForTopic.value}`)"));
    assert!(live.contains("import { onMounted, onUnmounted, ref, watch, computed, isRef, Ref } from 'vue'\n"));
}

#[test]
fn mutation_only_resource_has_no_vue_import() {
    let r = v2_resource("users", &[Verb::Delete]);
    let body = build_resource_ts(&r);
    assert!(body.starts_with("import type { MeltDownResponse } from '@/generated/types/meltdown'\n"));
    assert!(body.contains("emit('users:deleted', { id })"));
    assert!(body.ends_with("}\n\n"));
}
