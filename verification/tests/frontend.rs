use blast::codegen::frontend::{
    build_list_query_ts, build_resource_list_ts, list_helper_files, list_helpers_index, ts_field_name_set,
    validators_index,
};
use blast::state::{
    AuthMode, FieldName, FilterKind, GenLevel, ListOptions, ResourceName, ResourceState, Verb, VerbState,
};

fn verb(list_options: Option<ListOptions>) -> VerbState {
    VerbState { auth: AuthMode::Public, list_options, emit_html_page: true, emit_rest_api: true }
}

fn resource(name: &str, verbs: Vec<(Verb, VerbState)>) -> ResourceState {
    ResourceState {
        name: ResourceName::new(name),
        fields: Vec::new(),
        verbs,
        ws_events: None,
        singular_override: None,
        gen_level: GenLevel::Pages,
    }
}

#[test]
fn list_query_module_carries_page_size_constants() {
    let body = build_list_query_ts();
    assert!(body.starts_with("export const DEFAULT_PAGE_SIZE = 50\nexport const MAX_PAGE_SIZE = 200\n"));
    assert!(body.contains("export function buildListQuery(q: ListQuery): URLSearchParams {"));
    assert!(body.contains("const m = /^filter\\[(.+)\\]$/.exec(key)"));
    assert!(body.ends_with("return { page, page_size, sort, filters }\n}\n"));
}

#[test]
fn field_name_set_quotes_and_escapes() {
    assert_eq!(ts_field_name_set(&Vec::new()), "[]");
    assert_eq!(ts_field_name_set(&vec!["a".to_string(), "it's".to_string()]), "['a', 'it\\'s']");
}

#[test]
fn list_helper_sorts_and_dedups_columns() {
    let opts = ListOptions {
        paginated: true,
        filterable_columns: vec![
            (FieldName::new("title"), FilterKind::Eq),
            (FieldName::new("author"), FilterKind::In),
        ],
        sortable_columns: vec![FieldName::new("title"), FieldName::new("id"), FieldName::new("id")],
        default_sort: Some(FieldName::new("id")),
        max_page_size: Some(75),
    };
    let body = build_resource_list_ts(&verb(Some(opts)));
    assert!(body.starts_with(
        "export const SORTABLE_COLUMNS = ['id', 'title'] as const\nexport const FILTERABLE_COLUMNS = ['author', 'title'] as const\nexport const DEFAULT_SORT: string | undefined = 'id'\nexport const MAX_PAGE_SIZE: number = 75\n"
    ));
    assert!(body.contains("export function isSortable(col: string): col is SortableColumn {"));
}

#[test]
fn list_helper_without_options_uses_defaults() {
    let body = build_resource_list_ts(&verb(None));
    assert!(body.starts_with(
        "export const SORTABLE_COLUMNS = [] as const\nexport const FILTERABLE_COLUMNS = [] as const\nexport const DEFAULT_SORT: string | undefined = undefined\nexport const MAX_PAGE_SIZE: number = 200\n"
    ));
}

#[test]
fn list_helpers_cover_only_list_resources_in_name_order() {
    let rs = vec![
        resource("posts", vec![(Verb::List, verb(None)), (Verb::Get, verb(None))]),
        resource("audit", vec![(Verb::Get, verb(None))]),
        resource("authors", vec![(Verb::List, verb(None))]),
    ];
    let files = list_helper_files(&rs);
    let names: Vec<&str> = files.iter().map(|(n, _)| n.as_str()).collect();
    assert_eq!(names, vec!["posts_list.ts", "authors_list.ts", "index.ts"]);
    assert_eq!(files[2].1, "export * from './authors_list'\nexport * from './posts_list'\n");
    assert_eq!(list_helpers_index(&rs), files[2].1);
    assert_eq!(
        validators_index(&rs),
        "export * from './audit'\nexport * from './authors'\nexport * from './posts'\n"
    );
}

#[test]
fn empty_project_has_empty_barrels() {
    let rs: Vec<ResourceState> = Vec::new();
    assert_eq!(validators_index(&rs), "");
    let files = list_helper_files(&rs);
    assert_eq!(files.len(), 1);
    assert_eq!(files[0], ("index.ts".to_string(), String::new()));
}
