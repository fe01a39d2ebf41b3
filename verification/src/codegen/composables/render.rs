//! Vue composables (list / item / mutations) for one resource.
use vstd::prelude::*;
use vstd::string::*;
use crate::codegen::naming::{pascal_case, pascal_case_spec};
use crate::codegen::structs_naming::{type_stem_for_resource, type_stem_spec};
use crate::state::{ResourceState, Verb};
use crate::text::{join, join_strings, owned, seq_starts_with, str_starts_with, trim_end_newlines, views, with_single_trailing_newline};

verus! {

/// The plural PascalCase name: the PascalCase table name when it starts
/// with the singular stem, else the stem with an `s` appended.
pub open spec fn plural_spec(singular: Seq<char>, table: Seq<char>) -> Seq<char> {
    let p = pascal_case_spec(table);
    if seq_starts_with(p, singular) {
        p
    } else {
        singular + "s"@
    }
}

/// Plural PascalCase name for a resource (`users` -> `Users`).
pub fn plural_of_pascal(singular: &str, table: &str) -> (r: String)
    ensures
        r@ == plural_spec(singular@, table@),
{
    let p = pascal_case(table);
    if str_starts_with(p.as_str(), singular) {
        p
    } else {
        let mut out = owned(singular);
        out.append("s");
        out
    }
}

/// The channel subscription of a live list (empty without websocket events).
pub open spec fn live_block_spec(table: Seq<char>, live: bool) -> Seq<char> {
    if live {
        "  if (opts !== undefined && opts.live === true) {\n    useChannel<unknown>('"@
            + table
            + ".changed', { onMessage: () => { void refetch() } })\n  }\n"@
    } else {
        Seq::<char>::empty()
    }
}

fn live_block(table: &str, live: bool) -> (r: String)
    ensures
        r@ == live_block_spec(table@, live),
{
    if live {
        let mut out = owned("  if (opts !== undefined && opts.live === true) {\n    useChannel<unknown>('");
        out.append(table);
        out.append(".changed', { onMessage: () => { void refetch() } })\n  }\n");
        out
    } else {
        String::new()
    }
}


/// The paginated, URL-state-driven list composable.
pub open spec fn list_composable_spec(table: Seq<char>, singular: Seq<char>, plural: Seq<char>, live: bool) -> Seq<char> {
    "export function use"@
        + plural
        + "List(opts?: UseListOpts): {\n  data: Ref<"@
        + singular
        + "Public[] | null>\n  error: Ref<MeltDownResponse | null>\n  loading: Ref<boolean>\n  refetch: () => Promise<void>\n  page: ReturnType<typeof useUrlListState>['page']\n  pageSize: ReturnType<typeof useUrlListState>['pageSize']\n  sort: ReturnType<typeof useUrlListState>['sort']\n  filter: ReturnType<typeof useUrlListState>['filter']\n  total: Ref<number>\n  total_pages: Ref<number>\n} {\n  const data = ref<"@
        + singular
        + "Public[] | null>(null) as Ref<"@
        + singular
        + "Public[] | null>\n  const error = ref<MeltDownResponse | null>(null) as Ref<MeltDownResponse | null>\n  const loading = ref<boolean>(false)\n  const total = ref<number>(0)\n  const total_pages = ref<number>(0)\n  const { page, pageSize, sort, filter } = useUrlListState()\n\n  let in_flight: AbortController | null = null\n  let poll_handle: number | null = null\n  let poll_ms: number = 0\n  if (opts !== undefined && opts.poll !== undefined && opts.poll > 0) {\n    poll_ms = opts.poll\n  }\n\n  async function refetch(): Promise<void> {\n    if (in_flight !== null) {\n      in_flight.abort()\n    }\n    const controller = new AbortController()\n    in_flight = controller\n    loading.value = true\n    const result = await list"@
        + plural
        + "({\n      page: page.value,\n      page_size: pageSize.value,\n      sort: sort.value === '' ? null : sort.value,\n      filter: filter.value as { [key: string]: string | number | boolean | null | undefined },\n    }, controller.signal)\n    loading.value = false\n    if (in_flight === controller) {\n      in_flight = null\n    }\n    if (controller.signal.aborted === true) {\n      return\n    }\n    if (result.error !== null) {\n      error.value = result.error\n      return\n    }\n    error.value = null\n    data.value = result.data\n    total.value = result.total\n    total_pages.value = result.total_pages\n  }\n\n  function start_polling(): void {\n    if (poll_ms <= 0) {\n      return\n    }\n    if (poll_handle !== null) {\n      return\n    }\n    poll_handle = window.setInterval(() => { void refetch() }, poll_ms)\n  }\n\n  function stop_polling(): void {\n    if (poll_handle === null) {\n      return\n    }\n    window.clearInterval(poll_handle)\n    poll_handle = null\n  }\n\n  function on_visibility_change(): void {\n    if (document.visibilityState === 'hidden') {\n      stop_polling()\n    } else {\n      start_polling()\n    }\n  }\n\n"@
        + live_block_spec(table, live)
        + "  watch([page, pageSize, sort, filter], () => { void refetch() }, { deep: true })\n\n  onMounted(() => {\n    void refetch()\n    if (poll_ms > 0) {\n      start_polling()\n      document.addEventListener('visibilitychange', on_visibility_change)\n    }\n  })\n\n  onUnmounted(() => {\n    if (in_flight !== null) {\n      in_flight.abort()\n      in_flight = null\n    }\n    stop_polling()\n    if (poll_ms > 0) {\n      document.removeEventListener('visibilitychange', on_visibility_change)\n    }\n  })\n\n  return { data, error, loading, refetch, page, pageSize, sort, filter, total, total_pages }\n}\n"@
}

fn render_list_composable(table: &str, singular: &str, plural: &str, live: bool) -> (r: String)
    ensures
        r@ == list_composable_spec(table@, singular@, plural@, live),
{
    let lb = live_block(table, live);
    let mut out = owned("export function use");
    out.append(plural);
    out.append("List(opts?: UseListOpts): {\n  data: Ref<");
    out.append(singular);
    out.append("Public[] | null>\n  error: Ref<MeltDownResponse | null>\n  loading: Ref<boolean>\n  refetch: () => Promise<void>\n  page: ReturnType<typeof useUrlListState>['page']\n  pageSize: ReturnType<typeof useUrlListState>['pageSize']\n  sort: ReturnType<typeof useUrlListState>['sort']\n  filter: ReturnType<typeof useUrlListState>['filter']\n  total: Ref<number>\n  total_pages: Ref<number>\n} {\n  const data = ref<");
    out.append(singular);
    out.append("Public[] | null>(null) as Ref<");
    out.append(singular);
    out.append("Public[] | null>\n  const error = ref<MeltDownResponse | null>(null) as Ref<MeltDownResponse | null>\n  const loading = ref<boolean>(false)\n  const total = ref<number>(0)\n  const total_pages = ref<number>(0)\n  const { page, pageSize, sort, filter } = useUrlListState()\n\n  let in_flight: AbortController | null = null\n  let poll_handle: number | null = null\n  let poll_ms: number = 0\n  if (opts !== undefined && opts.poll !== undefined && opts.poll > 0) {\n    poll_ms = opts.poll\n  }\n\n  async function refetch(): Promise<void> {\n    if (in_flight !== null) {\n      in_flight.abort()\n    }\n    const controller = new AbortController()\n    in_flight = controller\n    loading.value = true\n    const result = await list");
    out.append(plural);
    out.append("({\n      page: page.value,\n      page_size: pageSize.value,\n      sort: sort.value === '' ? null : sort.value,\n      filter: filter.value as { [key: string]: string | number | boolean | null | undefined },\n    }, controller.signal)\n    loading.value = false\n    if (in_flight === controller) {\n      in_flight = null\n    }\n    if (controller.signal.aborted === true) {\n      return\n    }\n    if (result.error !== null) {\n      error.value = result.error\n      return\n    }\n    error.value = null\n    data.value = result.data\n    total.value = result.total\n    total_pages.value = result.total_pages\n  }\n\n  function start_polling(): void {\n    if (poll_ms <= 0) {\n      return\n    }\n    if (poll_handle !== null) {\n      return\n    }\n    poll_handle = window.setInterval(() => { void refetch() }, poll_ms)\n  }\n\n  function stop_polling(): void {\n    if (poll_handle === null) {\n      return\n    }\n    window.clearInterval(poll_handle)\n    poll_handle = null\n  }\n\n  function on_visibility_change(): void {\n    if (document.visibilityState === 'hidden') {\n      stop_polling()\n    } else {\n      start_polling()\n    }\n  }\n\n");
    out.append(lb.as_str());
    out.append("  watch([page, pageSize, sort, filter], () => { void refetch() }, { deep: true })\n\n  onMounted(() => {\n    void refetch()\n    if (poll_ms > 0) {\n      start_polling()\n      document.addEventListener('visibilitychange', on_visibility_change)\n    }\n  })\n\n  onUnmounted(() => {\n    if (in_flight !== null) {\n      in_flight.abort()\n      in_flight = null\n    }\n    stop_polling()\n    if (poll_ms > 0) {\n      document.removeEventListener('visibilitychange', on_visibility_change)\n    }\n  })\n\n  return { data, error, loading, refetch, page, pageSize, sort, filter, total, total_pages }\n}\n");
    out
}

/// The single-record composable.
pub open spec fn item_composable_spec(singular: Seq<char>) -> Seq<char> {
    "export function use"@
        + singular
        + "(id: Ref<number>): {\n  data: Ref<"@
        + singular
        + "Public | null>\n  error: Ref<MeltDownResponse | null>\n  loading: Ref<boolean>\n  refetch: () => Promise<void>\n} {\n  const data = ref<"@
        + singular
        + "Public | null>(null) as Ref<"@
        + singular
        + "Public | null>\n  const error = ref<MeltDownResponse | null>(null) as Ref<MeltDownResponse | null>\n  const loading = ref<boolean>(false)\n\n  let in_flight: AbortController | null = null\n\n  async function refetch(): Promise<void> {\n    if (in_flight !== null) {\n      in_flight.abort()\n    }\n    const controller = new AbortController()\n    in_flight = controller\n    loading.value = true\n    const result = await get"@
        + singular
        + "(id.value, controller.signal)\n    loading.value = false\n    if (in_flight === controller) {\n      in_flight = null\n    }\n    if (controller.signal.aborted === true) {\n      return\n    }\n    if (result.error !== null) {\n      error.value = result.error\n      return\n    }\n    error.value = null\n    data.value = result.data\n  }\n\n  watch(id, () => { void refetch() })\n\n  onMounted(() => { void refetch() })\n\n  onUnmounted(() => {\n    if (in_flight !== null) {\n      in_flight.abort()\n      in_flight = null\n    }\n  })\n\n  return { data, error, loading, refetch }\n}\n"@
}

fn render_item_composable(singular: &str) -> (r: String)
    ensures
        r@ == item_composable_spec(singular@),
{
    let mut out = owned("export function use");
    out.append(singular);
    out.append("(id: Ref<number>): {\n  data: Ref<");
    out.append(singular);
    out.append("Public | null>\n  error: Ref<MeltDownResponse | null>\n  loading: Ref<boolean>\n  refetch: () => Promise<void>\n} {\n  const data = ref<");
    out.append(singular);
    out.append("Public | null>(null) as Ref<");
    out.append(singular);
    out.append("Public | null>\n  const error = ref<MeltDownResponse | null>(null) as Ref<MeltDownResponse | null>\n  const loading = ref<boolean>(false)\n\n  let in_flight: AbortController | null = null\n\n  async function refetch(): Promise<void> {\n    if (in_flight !== null) {\n      in_flight.abort()\n    }\n    const controller = new AbortController()\n    in_flight = controller\n    loading.value = true\n    const result = await get");
    out.append(singular);
    out.append("(id.value, controller.signal)\n    loading.value = false\n    if (in_flight === controller) {\n      in_flight = null\n    }\n    if (controller.signal.aborted === true) {\n      return\n    }\n    if (result.error !== null) {\n      error.value = result.error\n      return\n    }\n    error.value = null\n    data.value = result.data\n  }\n\n  watch(id, () => { void refetch() })\n\n  onMounted(() => { void refetch() })\n\n  onUnmounted(() => {\n    if (in_flight !== null) {\n      in_flight.abort()\n      in_flight = null\n    }\n  })\n\n  return { data, error, loading, refetch }\n}\n");
    out
}

/// The create mutation.
pub open spec fn create_composable_spec(singular: Seq<char>) -> Seq<char> {
    "export function useCreate"@
        + singular
        + "(): (input: "@
        + singular
        + "Insertable) => Promise<{ data?: "@
        + singular
        + "Public; error?: MeltDownResponse }> {\n  return async (input: "@
        + singular
        + "Insertable) => {\n    const result = await create"@
        + singular
        + "(input)\n    if (result.error !== null) {\n      return { error: result.error }\n    }\n    if (result.data === null) {\n      return {}\n    }\n    return { data: result.data }\n  }\n}\n"@
}

fn render_create_composable(singular: &str) -> (r: String)
    ensures
        r@ == create_composable_spec(singular@),
{
    let mut out = owned("export function useCreate");
    out.append(singular);
    out.append("(): (input: ");
    out.append(singular);
    out.append("Insertable) => Promise<{ data?: ");
    out.append(singular);
    out.append("Public; error?: MeltDownResponse }> {\n  return async (input: ");
    out.append(singular);
    out.append("Insertable) => {\n    const result = await create");
    out.append(singular);
    out.append("(input)\n    if (result.error !== null) {\n      return { error: result.error }\n    }\n    if (result.data === null) {\n      return {}\n    }\n    return { data: result.data }\n  }\n}\n");
    out
}

/// The update mutation.
pub open spec fn update_composable_spec(singular: Seq<char>) -> Seq<char> {
    "export function useUpdate"@
        + singular
        + "(): (id: number, patch: "@
        + singular
        + "Patch) => Promise<{ data?: "@
        + singular
        + "Public; error?: MeltDownResponse }> {\n  return async (id: number, patch: "@
        + singular
        + "Patch) => {\n  const result = await update"@
        + singular
        + "(id, patch)\n    if (result.error !== null) {\n      return { error: result.error }\n    }\n    if (result.data === null) {\n      return {}\n    }\n    return { data: result.data }\n  }\n}\n"@
}

fn render_update_composable(singular: &str) -> (r: String)
    ensures
        r@ == update_composable_spec(singular@),
{
    let mut out = owned("export function useUpdate");
    out.append(singular);
    out.append("(): (id: number, patch: ");
    out.append(singular);
    out.append("Patch) => Promise<{ data?: ");
    out.append(singular);
    out.append("Public; error?: MeltDownResponse }> {\n  return async (id: number, patch: ");
    out.append(singular);
    out.append("Patch) => {\n  const result = await update");
    out.append(singular);
    out.append("(id, patch)\n    if (result.error !== null) {\n      return { error: result.error }\n    }\n    if (result.data === null) {\n      return {}\n    }\n    return { data: result.data }\n  }\n}\n");
    out
}

/// The delete mutation.
pub open spec fn delete_composable_spec(singular: Seq<char>) -> Seq<char> {
    "export function useDelete"@
        + singular
        + "(): (id: number) => Promise<{ error?: MeltDownResponse }> {\n  return async (id: number) => {\n    const result = await delete"@
        + singular
        + "(id)\n    if (result.error !== null) {\n      return { error: result.error }\n    }\n    return {}\n  }\n}\n"@
}

fn render_delete_composable(singular: &str) -> (r: String)
    ensures
        r@ == delete_composable_spec(singular@),
{
    let mut out = owned("export function useDelete");
    out.append(singular);
    out.append("(): (id: number) => Promise<{ error?: MeltDownResponse }> {\n  return async (id: number) => {\n    const result = await delete");
    out.append(singular);
    out.append("(id)\n    if (result.error !== null) {\n      return { error: result.error }\n    }\n    return {}\n  }\n}\n");
    out
}

/// Names imported from the resource's API client module.
pub open spec fn api_names(r: ResourceState) -> Seq<Seq<char>> {
    let s = type_stem_spec(r);
    let p = plural_spec(s, r.name@);
    (if r.declares(Verb::List) { seq!["list"@ + p] } else { seq![] })
        + (if r.declares(Verb::Get) { seq!["get"@ + s] } else { seq![] })
        + (if r.declares(Verb::Create) { seq!["create"@ + s] } else { seq![] })
        + (if r.declares(Verb::Update) { seq!["update"@ + s] } else { seq![] })
        + (if r.declares(Verb::Delete) { seq!["delete"@ + s] } else { seq![] })
}

/// Names imported from the resource's type module.
pub open spec fn type_names(r: ResourceState) -> Seq<Seq<char>> {
    let s = type_stem_spec(r);
    (if r.declares(Verb::List) || r.declares(Verb::Get) || r.declares(Verb::Create) || r.declares(Verb::Update) {
        seq![s + "Public"@]
    } else {
        seq![]
    }) + (if r.declares(Verb::Create) { seq![s + "Insertable"@] } else { seq![] })
        + (if r.declares(Verb::Update) { seq![s + "Patch"@] } else { seq![] })
}

/// Symbols imported from `vue`, each once.
pub open spec fn vue_imports_spec(has_list: bool, has_get: bool) -> Seq<char> {
    if has_list || has_get {
        "ref, watch, onMounted, onUnmounted"@
    } else {
        "ref"@
    }
}

/// The import block of the composables module.
pub open spec fn imports_spec(r: ResourceState) -> Seq<char> {
    let l = r.declares(Verb::List);
    let g = r.declares(Verb::Get);
    "import { "@ + vue_imports_spec(l, g) + " } from 'vue'\nimport type { Ref } from 'vue'\n"@
        + (if l { "import { useUrlListState } from '@/composables/url'\n"@ } else { Seq::<char>::empty() })
        + (if l && r.ws_events is Some { "import { useChannel } from '@/composables/channel'\n"@ } else { Seq::<char>::empty() })
        + (if api_names(r).len() > 0 {
            "import { "@ + join(api_names(r), ", "@) + " } from '@/generated/api/"@ + r.name@ + "'\n"@
        } else {
            Seq::<char>::empty()
        })
        + (if type_names(r).len() > 0 {
            "import type { "@ + join(type_names(r), ", "@) + " } from '@/generated/types/"@ + r.name@ + "'\n"@
        } else {
            Seq::<char>::empty()
        })
        + "import type { MeltDownResponse } from '@/generated/types/meltdown'\n\n"@
}

fn api_name_list(resource: &ResourceState, singular: &str, plural: &str) -> (r: Vec<String>)
    requires
        singular@ == type_stem_spec(*resource),
        plural@ == plural_spec(singular@, resource.name@),
    ensures
        views(r@) == api_names(*resource),
{
    let mut v: Vec<String> = Vec::new();
    let ghost s0 = views(v@);
    if resource.has_verb(Verb::List) {
        let mut n = owned("list");
        n.append(plural);
        v.push(n);
    }
    let ghost s1 = views(v@);
    if resource.has_verb(Verb::Get) {
        let mut n = owned("get");
        n.append(singular);
        v.push(n);
    }
    let ghost s2 = views(v@);
    if resource.has_verb(Verb::Create) {
        let mut n = owned("create");
        n.append(singular);
        v.push(n);
    }
    let ghost s3 = views(v@);
    if resource.has_verb(Verb::Update) {
        let mut n = owned("update");
        n.append(singular);
        v.push(n);
    }
    let ghost s4 = views(v@);
    if resource.has_verb(Verb::Delete) {
        let mut n = owned("delete");
        n.append(singular);
        v.push(n);
    }
    assert(views(v@) =~= api_names(*resource));
    v
}

fn type_name_list(resource: &ResourceState, singular: &str) -> (r: Vec<String>)
    requires
        singular@ == type_stem_spec(*resource),
    ensures
        views(r@) == type_names(*resource),
{
    let mut v: Vec<String> = Vec::new();
    if resource.has_verb(Verb::List) || resource.has_verb(Verb::Get) || resource.has_verb(Verb::Create)
        || resource.has_verb(Verb::Update) {
        let mut n = owned(singular);
        n.append("Public");
        v.push(n);
    }
    if resource.has_verb(Verb::Create) {
        let mut n = owned(singular);
        n.append("Insertable");
        v.push(n);
    }
    if resource.has_verb(Verb::Update) {
        let mut n = owned(singular);
        n.append("Patch");
        v.push(n);
    }
    assert(views(v@) =~= type_names(*resource));
    v
}

#[verifier::rlimit(50)]
fn render_imports(resource: &ResourceState, singular: &str, plural: &str) -> (r: String)
    requires
        singular@ == type_stem_spec(*resource),
        plural@ == plural_spec(singular@, resource.name@),
    ensures
        r@ == imports_spec(*resource),
{
    let table = resource.name.as_str();
    let has_list = resource.has_verb(Verb::List);
    let has_get = resource.has_verb(Verb::Get);
    let mut out = owned("import { ");
    if has_list || has_get {
        out.append("ref, watch, onMounted, onUnmounted");
    } else {
        out.append("ref");
    }
    out.append(" } from 'vue'\nimport type { Ref } from 'vue'\n");
    let ghost a = out@;
    if has_list {
        out.append("import { useUrlListState } from '@/composables/url'\n");
    }
    let ghost b = out@;
    if has_list && resource.ws_events.is_some() {
        out.append("import { useChannel } from '@/composables/channel'\n");
    }
    let ghost c = out@;
    let apis = api_name_list(resource, singular, plural);
    if apis.len() > 0 {
        let j = join_strings(&apis, ", ");
        out.append("import { ");
        out.append(j.as_str());
        out.append(" } from '@/generated/api/");
        out.append(table);
        out.append("'\n");
    }
    let ghost d = out@;
    let tys = type_name_list(resource, singular);
    if tys.len() > 0 {
        let j = join_strings(&tys, ", ");
        out.append("import type { ");
        out.append(j.as_str());
        out.append(" } from '@/generated/types/");
        out.append(table);
        out.append("'\n");
    }
    out.append("import type { MeltDownResponse } from '@/generated/types/meltdown'\n\n");
    assert(out@ =~= imports_spec(*resource));
    out
}

/// The list composable section (with its options interface).
pub open spec fn list_section_spec(r: ResourceState) -> Seq<char> {
    if r.declares(Verb::List) {
        let s = type_stem_spec(r);
        "export interface UseListOpts {\n  poll?: number\n  live?: boolean\n}\n\n"@
            + list_composable_spec(r.name@, s, plural_spec(s, r.name@), r.ws_events is Some) + "\n"@
    } else {
        Seq::<char>::empty()
    }
}

/// One per-verb composable section: the composable and a blank line.
pub open spec fn verb_section_spec(r: ResourceState, v: Verb) -> Seq<char> {
    let s = type_stem_spec(r);
    if !r.declares(v) {
        Seq::<char>::empty()
    } else {
        match v {
            Verb::Get => item_composable_spec(s) + "\n"@,
            Verb::Create => create_composable_spec(s) + "\n"@,
            Verb::Update => update_composable_spec(s) + "\n"@,
            Verb::Delete => delete_composable_spec(s) + "\n"@,
            _ => Seq::<char>::empty(),
        }
    }
}

/// The composables of each declared verb, each followed by a blank line.
pub open spec fn sections_spec(r: ResourceState) -> Seq<char> {
    list_section_spec(r) + verb_section_spec(r, Verb::Get) + verb_section_spec(r, Verb::Create)
        + verb_section_spec(r, Verb::Update) + verb_section_spec(r, Verb::Delete)
}

fn render_list_section(resource: &ResourceState, singular: &str, plural: &str) -> (r: String)
    requires
        singular@ == type_stem_spec(*resource),
        plural@ == plural_spec(singular@, resource.name@),
    ensures
        r@ == list_section_spec(*resource),
{
    if resource.has_verb(Verb::List) {
        let mut out = owned("export interface UseListOpts {\n  poll?: number\n  live?: boolean\n}\n\n");
        let b = render_list_composable(resource.name.as_str(), singular, plural, resource.ws_events.is_some());
        out.append(b.as_str());
        out.append("\n");
        out
    } else {
        String::new()
    }
}

fn render_verb_section(resource: &ResourceState, v: Verb, singular: &str) -> (r: String)
    requires
        singular@ == type_stem_spec(*resource),
    ensures
        r@ == verb_section_spec(*resource, v),
{
    if !resource.has_verb(v) {
        return String::new();
    }
    let mut out = match v {
        Verb::Get => render_item_composable(singular),
        Verb::Create => render_create_composable(singular),
        Verb::Update => render_update_composable(singular),
        Verb::Delete => render_delete_composable(singular),
        _ => {
            return String::new();
        },
    };
    out.append("\n");
    out
}

fn render_sections(resource: &ResourceState, singular: &str, plural: &str) -> (r: String)
    requires
        singular@ == type_stem_spec(*resource),
        plural@ == plural_spec(singular@, resource.name@),
    ensures
        r@ == sections_spec(*resource),
{
    let mut out = render_list_section(resource, singular, plural);
    let a = render_verb_section(resource, Verb::Get, singular);
    out.append(a.as_str());
    let b = render_verb_section(resource, Verb::Create, singular);
    out.append(b.as_str());
    let c = render_verb_section(resource, Verb::Update, singular);
    out.append(c.as_str());
    let d = render_verb_section(resource, Verb::Delete, singular);
    out.append(d.as_str());
    out
}

/// The whole composables module of a resource, ending in exactly one newline.
pub open spec fn composables_spec(r: ResourceState) -> Seq<char> {
    trim_end_newlines(imports_spec(r) + sections_spec(r)) + "\n"@
}

/// `src/generated/composables/<table>.ts` for one resource.
pub fn build_resource_composables(resource: &ResourceState) -> (r: String)
    ensures
        r@ == composables_spec(*resource),
{
    let singular = type_stem_for_resource(resource);
    let plural = plural_of_pascal(singular.as_str(), resource.name.as_str());
    let mut out = render_imports(resource, singular.as_str(), plural.as_str());
    let sections = render_sections(resource, singular.as_str(), plural.as_str());
    out.append(sections.as_str());
    let r = with_single_trailing_newline(&out);
    assert(seq!['\n'] =~= "\n"@) by {
        reveal_strlit("\n");
    }
    r
}


} // verus!
