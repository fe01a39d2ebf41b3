//! TypeScript source of the per-resource composables (bus-aware variant).
use vstd::prelude::*;
use vstd::string::*;
use crate::codegen::composables_v2::naming::{plural_pascal, singular_pascal};
use crate::codegen::naming::pascal_case_spec;
use crate::codegen::structs_naming::type_stem_spec;
use crate::state::{ResourceState, TopicScope, Verb};
use crate::text::{join, join_strings, owned, views};

verus! {

/// The list composable with polling, live refresh and bus invalidation.
pub open spec fn list_spec(table: Seq<char>, singular: Seq<char>, plural: Seq<char>) -> Seq<char> {
    "export interface Use"@
        + plural
        + "ListOpts {\npoll?: number\nlive?: boolean\nfilter?: "@
        + singular
        + "Filter\n}\n\nexport function use"@
        + plural
        + "List(opts: Use"@
        + plural
        + "ListOpts = {}) {\nconst data = ref<"@
        + singular
        + "Public[] | null>(null)\nconst error = ref<MeltDownResponse | null>(null)\nconst url = useUrlListState()\n\nlet pendingController: AbortController | null = null\nconst refetch = async (): Promise<void> => {\nif (pendingController !== null) {\npendingController.abort()\n}\nconst controller = new AbortController()\npendingController = controller\nconst navSignal = getNavAbortSignal()\nif (navSignal !== null) {\nnavSignal.addEventListener('abort', () => controller.abort(), { once: true })\n}\nconst filterValue = opts.filter === undefined ? url.filter.value : opts.filter\nconst result = await apiList(\n{\npage: url.page.value,\npage_size: url.pageSize.value,\nsort: url.sort.value,\nfilter: filterValue,\n},\ncontroller.signal,\n)\nif (controller.signal.aborted) {\nreturn\n}\nif (result.data !== null) {\ndata.value = result.data\nerror.value = null\n} else {\nerror.value = result.error\n}\n}\n\nwatchEffect(() => {\nvoid url.page.value\nvoid url.pageSize.value\nvoid url.sort.value\nvoid url.filter.value\nvoid refetch()\n})\n\nlet pollTimer: ReturnType<typeof setInterval> | null = null\nif (opts.poll !== undefined && opts.poll > 0) {\nonMounted(() => {\npollTimer = setInterval(() => {\nif (document.visibilityState === 'visible') {\nvoid refetch()\n}\n}, opts.poll)\n})\nonUnmounted(() => {\nif (pollTimer !== null) {\nclearInterval(pollTimer)\npollTimer = null\n}\n})\n}\n\nif (opts.live === true) {\nconst channel = useChannel('"@
        + table + "/all"@
        + "')\nwatch(channel.lastEvent, () => {\nvoid refetch()\n})\n}\n\nlet unsubCreated: (() => void) | null = null\nlet unsubUpdated: (() => void) | null = null\nlet unsubDeleted: (() => void) | null = null\nonMounted(() => {\nunsubCreated = on('"@
        + table
        + ":created', () => { void refetch() })\nunsubUpdated = on('"@
        + table
        + ":updated', () => { void refetch() })\nunsubDeleted = on('"@
        + table
        + ":deleted', () => { void refetch() })\n})\nonUnmounted(() => {\nif (unsubCreated !== null) { unsubCreated() }\nif (unsubUpdated !== null) { unsubUpdated() }\nif (unsubDeleted !== null) { unsubDeleted() }\n})\n\nreturn {\ndata,\nerror,\nrefetch,\npage: url.page,\npageSize: url.pageSize,\nsort: url.sort,\nfilter: url.filter,\n}\n}\n"@
}

fn render_list_composable(table: &str, singular: &str, plural: &str) -> (r: String)
    ensures
        r@ == list_spec(table@, singular@, plural@),
{
    let mut topic = owned(table);
    topic.append("/all");
    let mut out = owned("export interface Use");
    out.append(plural);
    out.append("ListOpts {\npoll?: number\nlive?: boolean\nfilter?: ");
    out.append(singular);
    out.append("Filter\n}\n\nexport function use");
    out.append(plural);
    out.append("List(opts: Use");
    out.append(plural);
    out.append("ListOpts = {}) {\nconst data = ref<");
    out.append(singular);
    out.append("Public[] | null>(null)\nconst error = ref<MeltDownResponse | null>(null)\nconst url = useUrlListState()\n\nlet pendingController: AbortController | null = null\nconst refetch = async (): Promise<void> => {\nif (pendingController !== null) {\npendingController.abort()\n}\nconst controller = new AbortController()\npendingController = controller\nconst navSignal = getNavAbortSignal()\nif (navSignal !== null) {\nnavSignal.addEventListener('abort', () => controller.abort(), { once: true })\n}\nconst filterValue = opts.filter === undefined ? url.filter.value : opts.filter\nconst result = await apiList(\n{\npage: url.page.value,\npage_size: url.pageSize.value,\nsort: url.sort.value,\nfilter: filterValue,\n},\ncontroller.signal,\n)\nif (controller.signal.aborted) {\nreturn\n}\nif (result.data !== null) {\ndata.value = result.data\nerror.value = null\n} else {\nerror.value = result.error\n}\n}\n\nwatchEffect(() => {\nvoid url.page.value\nvoid url.pageSize.value\nvoid url.sort.value\nvoid url.filter.value\nvoid refetch()\n})\n\nlet pollTimer: ReturnType<typeof setInterval> | null = null\nif (opts.poll !== undefined && opts.poll > 0) {\nonMounted(() => {\npollTimer = setInterval(() => {\nif (document.visibilityState === 'visible') {\nvoid refetch()\n}\n}, opts.poll)\n})\nonUnmounted(() => {\nif (pollTimer !== null) {\nclearInterval(pollTimer)\npollTimer = null\n}\n})\n}\n\nif (opts.live === true) {\nconst channel = useChannel('");
    out.append(topic.as_str());
    out.append("')\nwatch(channel.lastEvent, () => {\nvoid refetch()\n})\n}\n\nlet unsubCreated: (() => void) | null = null\nlet unsubUpdated: (() => void) | null = null\nlet unsubDeleted: (() => void) | null = null\nonMounted(() => {\nunsubCreated = on('");
    out.append(table);
    out.append(":created', () => { void refetch() })\nunsubUpdated = on('");
    out.append(table);
    out.append(":updated', () => { void refetch() })\nunsubDeleted = on('");
    out.append(table);
    out.append(":deleted', () => { void refetch() })\n})\nonUnmounted(() => {\nif (unsubCreated !== null) { unsubCreated() }\nif (unsubUpdated !== null) { unsubUpdated() }\nif (unsubDeleted !== null) { unsubDeleted() }\n})\n\nreturn {\ndata,\nerror,\nrefetch,\npage: url.page,\npageSize: url.pageSize,\nsort: url.sort,\nfilter: url.filter,\n}\n}\n");
    out
}

/// The per-row channel subscription (only for per-row topic scope).
pub open spec fn single_live_block_spec(table: Seq<char>, per_row: bool) -> Seq<char> {
    if per_row {
        "  const idForTopic = computed<number>(() => isRef(id) ? id.value : id)\nconst channel = useChannel(`"@
            + table + "/${idForTopic.value}"@
            + "`)\nwatch(channel.lastEvent, () => { void refetch() })\nvoid idForTopic\n"@
    } else {
        Seq::<char>::empty()
    }
}

fn render_single_live_block(table: &str, per_row: bool) -> (r: String)
    ensures
        r@ == single_live_block_spec(table@, per_row),
{
    if per_row {
        let mut tt = owned(table);
        tt.append("/${idForTopic.value}");
        let mut out = owned("  const idForTopic = computed<number>(() => isRef(id) ? id.value : id)\nconst channel = useChannel(`");
        out.append(tt.as_str());
        out.append("`)\nwatch(channel.lastEvent, () => { void refetch() })\nvoid idForTopic\n");
        out
    } else {
        String::new()
    }
}

/// The single-record composable.
pub open spec fn single_spec(table: Seq<char>, singular: Seq<char>, per_row: bool) -> Seq<char> {
    "export function use"@
        + singular
        + "(id: Ref<number> | number) {\nconst data = ref<"@
        + singular
        + "Public | null>(null)\nconst error = ref<MeltDownResponse | null>(null)\n\nlet pendingController: AbortController | null = null\nconst refetch = async (): Promise<void> => {\nif (pendingController !== null) {\npendingController.abort()\n}\nconst controller = new AbortController()\npendingController = controller\nconst navSignal = getNavAbortSignal()\nif (navSignal !== null) {\nnavSignal.addEventListener('abort', () => controller.abort(), { once: true })\n}\nconst idValue: number = isRef(id) ? id.value : id\nconst result = await apiGet(idValue, controller.signal)\nif (controller.signal.aborted) {\nreturn\n}\nif (result.data !== null) {\ndata.value = result.data\nerror.value = null\n} else {\nerror.value = result.error\n}\n}\n\nwatch(\n() => (isRef(id) ? id.value : id),\n() => { void refetch() },\n{ immediate: true },\n)\n\n"@
        + single_live_block_spec(table, per_row)
        + "let unsubUpdated: (() => void) | null = null\nlet unsubDeleted: (() => void) | null = null\nonMounted(() => {\nunsubUpdated = on('"@
        + table
        + ":updated', () => { void refetch() })\nunsubDeleted = on('"@
        + table
        + ":deleted', () => { void refetch() })\n})\nonUnmounted(() => {\nif (unsubUpdated !== null) { unsubUpdated() }\nif (unsubDeleted !== null) { unsubDeleted() }\n})\n\nreturn { data, error, refetch }\n}\n"@
}

fn render_single_composable(table: &str, singular: &str, per_row: bool) -> (r: String)
    ensures
        r@ == single_spec(table@, singular@, per_row),
{
    let live_block = render_single_live_block(table, per_row);
    let mut out = owned("export function use");
    out.append(singular);
    out.append("(id: Ref<number> | number) {\nconst data = ref<");
    out.append(singular);
    out.append("Public | null>(null)\nconst error = ref<MeltDownResponse | null>(null)\n\nlet pendingController: AbortController | null = null\nconst refetch = async (): Promise<void> => {\nif (pendingController !== null) {\npendingController.abort()\n}\nconst controller = new AbortController()\npendingController = controller\nconst navSignal = getNavAbortSignal()\nif (navSignal !== null) {\nnavSignal.addEventListener('abort', () => controller.abort(), { once: true })\n}\nconst idValue: number = isRef(id) ? id.value : id\nconst result = await apiGet(idValue, controller.signal)\nif (controller.signal.aborted) {\nreturn\n}\nif (result.data !== null) {\ndata.value = result.data\nerror.value = null\n} else {\nerror.value = result.error\n}\n}\n\nwatch(\n() => (isRef(id) ? id.value : id),\n() => { void refetch() },\n{ immediate: true },\n)\n\n");
    out.append(live_block.as_str());
    out.append("let unsubUpdated: (() => void) | null = null\nlet unsubDeleted: (() => void) | null = null\nonMounted(() => {\nunsubUpdated = on('");
    out.append(table);
    out.append(":updated', () => { void refetch() })\nunsubDeleted = on('");
    out.append(table);
    out.append(":deleted', () => { void refetch() })\n})\nonUnmounted(() => {\nif (unsubUpdated !== null) { unsubUpdated() }\nif (unsubDeleted !== null) { unsubDeleted() }\n})\n\nreturn { data, error, refetch }\n}\n");
    out
}

/// The create mutation (emits `<table>:created`).
pub open spec fn create_spec(table: Seq<char>, singular: Seq<char>) -> Seq<char> {
    "export function useCreate"@
        + singular
        + "() {\nreturn async (\ninput: "@
        + singular
        + "Insertable,\n): Promise<{ data: "@
        + singular
        + "Public | null; error: MeltDownResponse | null }> => {\nconst result = await apiCreate(input)\nif (result.data !== null) {\nemit('"@
        + table
        + ":created', result.data)\n}\nreturn result\n}\n}\n"@
}

fn render_create_composable(table: &str, singular: &str) -> (r: String)
    ensures
        r@ == create_spec(table@, singular@),
{
    let mut out = owned("export function useCreate");
    out.append(singular);
    out.append("() {\nreturn async (\ninput: ");
    out.append(singular);
    out.append("Insertable,\n): Promise<{ data: ");
    out.append(singular);
    out.append("Public | null; error: MeltDownResponse | null }> => {\nconst result = await apiCreate(input)\nif (result.data !== null) {\nemit('");
    out.append(table);
    out.append(":created', result.data)\n}\nreturn result\n}\n}\n");
    out
}

/// The update mutation (emits `<table>:updated`).
pub open spec fn update_spec(table: Seq<char>, singular: Seq<char>) -> Seq<char> {
    "export function useUpdate"@
        + singular
        + "() {\nreturn async (\nid: number,\npatch: "@
        + singular
        + "Patch,\n): Promise<{ data: "@
        + singular
        + "Public | null; error: MeltDownResponse | null }> => {\nconst result = await apiUpdate(id, patch)\nif (result.data !== null) {\nemit('"@
        + table
        + ":updated', result.data)\n}\nreturn result\n}\n}\n"@
}

fn render_update_composable(table: &str, singular: &str) -> (r: String)
    ensures
        r@ == update_spec(table@, singular@),
{
    let mut out = owned("export function useUpdate");
    out.append(singular);
    out.append("() {\nreturn async (\nid: number,\npatch: ");
    out.append(singular);
    out.append("Patch,\n): Promise<{ data: ");
    out.append(singular);
    out.append("Public | null; error: MeltDownResponse | null }> => {\nconst result = await apiUpdate(id, patch)\nif (result.data !== null) {\nemit('");
    out.append(table);
    out.append(":updated', result.data)\n}\nreturn result\n}\n}\n");
    out
}

/// The delete mutation (emits `<table>:deleted`).
pub open spec fn delete_spec(table: Seq<char>, singular: Seq<char>) -> Seq<char> {
    "export function useDelete"@
        + singular
        + "() {\nreturn async (\nid: number,\n): Promise<{ data: { id: number } | null; error: MeltDownResponse | null }> => {\nconst result = await apiDelete(id)\nif (result.data !== null) {\nemit('"@
        + table
        + ":deleted', { id })\n}\nreturn result\n}\n}\n"@
}

fn render_delete_composable(table: &str, singular: &str) -> (r: String)
    ensures
        r@ == delete_spec(table@, singular@),
{
    let mut out = owned("export function useDelete");
    out.append(singular);
    out.append("() {\nreturn async (\nid: number,\n): Promise<{ data: { id: number } | null; error: MeltDownResponse | null }> => {\nconst result = await apiDelete(id)\nif (result.data !== null) {\nemit('");
    out.append(table);
    out.append(":deleted', { id })\n}\nreturn result\n}\n}\n");
    out
}

/// Symbols imported from `vue`.
pub open spec fn v2_vue_names(l: bool, g: bool) -> Seq<char> {
    "onMounted, onUnmounted, ref, watch"@ + (if l { ", watchEffect"@ } else { Seq::<char>::empty() }) + (if g {
        ", computed, isRef, Ref"@
    } else {
        Seq::<char>::empty()
    })
}

/// Names imported from the resource's type module.
pub open spec fn v2_type_names(s: Seq<char>, l: bool, g: bool, c: bool, u: bool) -> Seq<Seq<char>> {
    (if l || g { seq![s + "Public"@] } else { seq![] }) + (if c { seq![s + "Insertable"@] } else { seq![] }) + (if u {
        seq![s + "Patch"@]
    } else {
        seq![]
    }) + (if l { seq![s + "Filter"@] } else { seq![] })
}

/// API client functions, imported under their `api*` aliases.
pub open spec fn v2_api_names(s: Seq<char>, l: bool, g: bool, c: bool, u: bool, d: bool) -> Seq<Seq<char>> {
    (if l { seq!["list"@ + s + "s as apiList"@] } else { seq![] }) + (if g {
        seq!["get"@ + s + " as apiGet"@]
    } else {
        seq![]
    }) + (if c { seq!["create"@ + s + " as apiCreate"@] } else { seq![] }) + (if u {
        seq!["update"@ + s + " as apiUpdate"@]
    } else {
        seq![]
    }) + (if d { seq!["delete"@ + s + " as apiDelete"@] } else { seq![] })
}

pub open spec fn v2_vue_line(l: bool, g: bool) -> Seq<char> {
    if l || g {
        "import { "@ + v2_vue_names(l, g) + " } from 'vue'\n"@
    } else {
        Seq::<char>::empty()
    }
}

pub open spec fn v2_types_line(table: Seq<char>, s: Seq<char>, l: bool, g: bool, c: bool, u: bool) -> Seq<char> {
    if l || g || c || u {
        "import type { "@ + join(v2_type_names(s, l, g, c, u), ", "@) + " } from '@/generated/types/"@ + table + "'\n"@
    } else {
        Seq::<char>::empty()
    }
}

pub open spec fn v2_api_line(table: Seq<char>, s: Seq<char>, l: bool, g: bool, c: bool, u: bool, d: bool) -> Seq<char> {
    if l || g || c || u || d {
        "import { "@ + join(v2_api_names(s, l, g, c, u, d), ", "@) + " } from '@/generated/api/"@ + table + "'\n"@
    } else {
        Seq::<char>::empty()
    }
}

pub open spec fn v2_tail_lines(l: bool, g: bool) -> Seq<char> {
    (if l { "import { useUrlListState } from '@/composables/url'\n"@ } else { Seq::<char>::empty() }) + (if l || g {
        "import { useChannel } from '@/composables/channel'\nimport { getNavAbortSignal } from '@/router/install-blocking-nav'\n"@
    } else {
        Seq::<char>::empty()
    }) + "import { emit, on } from '@/generated/bus'\n"@
}

pub open spec fn v2_imports_spec(table: Seq<char>, s: Seq<char>, l: bool, g: bool, c: bool, u: bool, d: bool) -> Seq<char> {
    v2_vue_line(l, g) + "import type { MeltDownResponse } from '@/generated/types/meltdown'\n"@
        + v2_types_line(table, s, l, g, c, u) + v2_api_line(table, s, l, g, c, u, d) + v2_tail_lines(l, g)
}

fn push_named(v: &mut Vec<String>, a: &str, b: &str, c: &str)
    ensures
        views(final(v)@) == views(old(v)@).push(a@ + b@ + c@),
{
    let mut n = owned(a);
    n.append(b);
    n.append(c);
    let ghost before = views(v@);
    let ghost nv = n@;
    v.push(n);
    assert(views(v@) =~= before.push(nv));
}

fn render_vue_line(l: bool, g: bool) -> (r: String)
    ensures
        r@ == v2_vue_line(l, g),
{
    if l || g {
        let mut out = owned("import { ");
        out.append("onMounted, onUnmounted, ref, watch");
        let ghost a = out@;
        if l {
            out.append(", watchEffect");
        }
        let ghost b = out@;
        if g {
            out.append(", computed, isRef, Ref");
        }
        out.append(" } from 'vue'\n");
        proof {
            reveal_strlit("");
        }
        assert(out@ =~= v2_vue_line(l, g));
        out
    } else {
        String::new()
    }
}

fn render_types_line(table: &str, s: &str, l: bool, g: bool, c: bool, u: bool) -> (r: String)
    ensures
        r@ == v2_types_line(table@, s@, l, g, c, u),
{
    let mut types: Vec<String> = Vec::new();
    if l || g {
        push_named(&mut types, s, "Public", "");
    }
    if c {
        push_named(&mut types, s, "Insertable", "");
    }
    if u {
        push_named(&mut types, s, "Patch", "");
    }
    if l {
        push_named(&mut types, s, "Filter", "");
    }
    proof {
        reveal_strlit("");
    }
    assert(views(types@) =~= v2_type_names(s@, l, g, c, u));
    if types.len() > 0 {
        let j = join_strings(&types, ", ");
        let mut out = owned("import type { ");
        out.append(j.as_str());
        out.append(" } from '@/generated/types/");
        out.append(table);
        out.append("'\n");
        out
    } else {
        String::new()
    }
}

fn render_api_line(table: &str, s: &str, l: bool, g: bool, c: bool, u: bool, d: bool) -> (r: String)
    ensures
        r@ == v2_api_line(table@, s@, l, g, c, u, d),
{
    let mut apis: Vec<String> = Vec::new();
    if l {
        push_named(&mut apis, "list", s, "s as apiList");
    }
    if g {
        push_named(&mut apis, "get", s, " as apiGet");
    }
    if c {
        push_named(&mut apis, "create", s, " as apiCreate");
    }
    if u {
        push_named(&mut apis, "update", s, " as apiUpdate");
    }
    if d {
        push_named(&mut apis, "delete", s, " as apiDelete");
    }
    assert(views(apis@) =~= v2_api_names(s@, l, g, c, u, d));
    if apis.len() > 0 {
        let j = join_strings(&apis, ", ");
        let mut out = owned("import { ");
        out.append(j.as_str());
        out.append(" } from '@/generated/api/");
        out.append(table);
        out.append("'\n");
        out
    } else {
        String::new()
    }
}

fn render_tail_lines(l: bool, g: bool) -> (r: String)
    ensures
        r@ == v2_tail_lines(l, g),
{
    let mut out = String::new();
    if l {
        out.append("import { useUrlListState } from '@/composables/url'\n");
    }
    let ghost a = out@;
    if l || g {
        out.append("import { useChannel } from '@/composables/channel'\nimport { getNavAbortSignal } from '@/router/install-blocking-nav'\n");
    }
    let ghost b = out@;
    out.append("import { emit, on } from '@/generated/bus'\n");
    assert(out@ =~= v2_tail_lines(l, g));
    out
}

fn build_imports(table: &str, s: &str, l: bool, g: bool, c: bool, u: bool, d: bool) -> (r: String)
    ensures
        r@ == v2_imports_spec(table@, s@, l, g, c, u, d),
{
    let mut out = render_vue_line(l, g);
    out.append("import type { MeltDownResponse } from '@/generated/types/meltdown'\n");
    let t = render_types_line(table, s, l, g, c, u);
    out.append(t.as_str());
    let a = render_api_line(table, s, l, g, c, u, d);
    out.append(a.as_str());
    let e = render_tail_lines(l, g);
    out.append(e.as_str());
    out
}

/// The resource's single-record topic is per-row.
pub open spec fn per_row_spec(r: ResourceState) -> bool {
    r.ws_events matches Some(w) && w.topic_scope == TopicScope::PerRow
}

/// One verb's section: its composable and a blank line.
pub open spec fn v2_section_spec(r: ResourceState, v: Verb) -> Seq<char> {
    let table = r.name@;
    let s = type_stem_spec(r);
    if !r.declares(v) {
        Seq::<char>::empty()
    } else {
        (match v {
            Verb::List => list_spec(table, s, pascal_case_spec(table)),
            Verb::Get => single_spec(table, s, per_row_spec(r)),
            Verb::Create => create_spec(table, s),
            Verb::Update => update_spec(table, s),
            Verb::Delete => delete_spec(table, s),
        }) + "\n"@
    }
}

fn render_v2_section(resource: &ResourceState, v: Verb, s: &str, plural: &str) -> (r: String)
    requires
        s@ == type_stem_spec(*resource),
        plural@ == pascal_case_spec(resource.name@),
    ensures
        r@ == v2_section_spec(*resource, v),
{
    if !resource.has_verb(v) {
        return String::new();
    }
    let table = resource.name.as_str();
    let mut out = match v {
        Verb::List => render_list_composable(table, s, plural),
        Verb::Get => {
            let per_row = match &resource.ws_events {
                Some(w) => w.topic_scope == TopicScope::PerRow,
                None => false,
            };
            render_single_composable(table, s, per_row)
        },
        Verb::Create => render_create_composable(table, s),
        Verb::Update => render_update_composable(table, s),
        Verb::Delete => render_delete_composable(table, s),
    };
    out.append("\n");
    out
}

/// The composables module of a resource: imports, a blank line, then the
/// composable of each declared verb in the order list, get, create, update,
/// delete.
pub open spec fn resource_ts_spec(r: ResourceState) -> Seq<char> {
    let l = r.declares(Verb::List);
    let g = r.declares(Verb::Get);
    let c = r.declares(Verb::Create);
    let u = r.declares(Verb::Update);
    let d = r.declares(Verb::Delete);
    v2_imports_spec(r.name@, type_stem_spec(r), l, g, c, u, d) + "\n"@ + v2_section_spec(r, Verb::List)
        + v2_section_spec(r, Verb::Get) + v2_section_spec(r, Verb::Create) + v2_section_spec(r, Verb::Update)
        + v2_section_spec(r, Verb::Delete)
}

/// The full TypeScript body of `<table>.ts` (without the generated marker).
pub fn build_resource_ts(resource: &ResourceState) -> (r: String)
    ensures
        r@ == resource_ts_spec(*resource),
{
    let table = resource.name.as_str();
    let singular = singular_pascal(resource);
    let plural = plural_pascal(table);
    let mut body = build_imports(
        table,
        singular.as_str(),
        resource.has_verb(Verb::List),
        resource.has_verb(Verb::Get),
        resource.has_verb(Verb::Create),
        resource.has_verb(Verb::Update),
        resource.has_verb(Verb::Delete),
    );
    body.append("\n");
    let a = render_v2_section(resource, Verb::List, singular.as_str(), plural.as_str());
    body.append(a.as_str());
    let b = render_v2_section(resource, Verb::Get, singular.as_str(), plural.as_str());
    body.append(b.as_str());
    let c = render_v2_section(resource, Verb::Create, singular.as_str(), plural.as_str());
    body.append(c.as_str());
    let d = render_v2_section(resource, Verb::Update, singular.as_str(), plural.as_str());
    body.append(d.as_str());
    let e = render_v2_section(resource, Verb::Delete, singular.as_str(), plural.as_str());
    body.append(e.as_str());
    body
}

} // verus!
