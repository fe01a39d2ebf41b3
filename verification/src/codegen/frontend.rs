//! Frontend list-query helpers: the shared `list_query.ts` module, one
//! `<table>_list.ts` per resource with a list verb, and the barrels.
use vstd::prelude::*;
use crate::codegen::flows::file_pairs;
use crate::state::{FieldName, FilterKind, ListOptions, ResourceState, Verb, VerbState, verb_lookup};
use crate::text::{
    concat_map, decimal, escape_sq, escape_single_quoted, join, join_strings, lemma_concat_map_all,
    lemma_concat_map_step, lex, owned, sort_dedup_strings, sort_strings, sorted_distinct, u32_decimal, views,
};

verus! {

/// Page-size ceiling on the wire.
pub const MAX_PAGE_SIZE_WIRE: u32 = 200;

/// Page size used when a request names none.
pub const DEFAULT_PAGE_SIZE_WIRE: u32 = 50;

pub const LIST_QUERY_HEAD: &'static str = "export const DEFAULT_PAGE_SIZE = ";

pub const LIST_QUERY_MID: &'static str = "\nexport const MAX_PAGE_SIZE = ";

pub const LIST_QUERY_TAIL: &'static str = "\nexport const DEFAULT_PAGE = 1\n\nexport interface ListQuery {\npage: number\npage_size: number\nsort?: string\nfilters: Record<string, string>\n}\n\nexport function buildListQuery(q: ListQuery): URLSearchParams {\nconst out = new URLSearchParams()\nout.set('page', String(q.page))\nout.set('page_size', String(q.page_size))\nif (q.sort !== undefined && q.sort !== '') {\nout.set('sort', q.sort)\n}\nfor (const [col, val] of Object.entries(q.filters)) {\nout.append(`filter[${col}]`, val)\n}\nreturn out\n}\n\nexport function parseListQuery(s: string, maxPageSize: number = MAX_PAGE_SIZE): ListQuery {\nconst params = new URLSearchParams(s)\nlet page = DEFAULT_PAGE\nlet page_size = DEFAULT_PAGE_SIZE\nlet sort: string | undefined\nconst filters: Record<string, string> = {}\n\nconst rawPage = params.get('page')\nif (rawPage !== null) {\nconst n = Number(rawPage)\nif (Number.isInteger(n) && n >= 1) {\npage = n\n}\n}\n\nconst rawSize = params.get('page_size')\nif (rawSize !== null) {\nconst n = Number(rawSize)\nif (Number.isInteger(n) && n >= 1) {\npage_size = Math.min(n, maxPageSize)\n}\n}\n\nconst rawSort = params.get('sort')\nif (rawSort !== null && rawSort !== '') {\nsort = rawSort\n}\n\nfor (const [key, value] of params.entries()) {\nconst m = /^filter\\[(.+)\\]$/.exec(key)\nif (m !== null && m[1].length > 0) {\nfilters[m[1]] = value\n}\n}\n\nreturn { page, page_size, sort, filters }\n}\n";

/// `list_query.ts`: page-size constants and the query builder and parser.
pub open spec fn list_query_ts_spec() -> Seq<char> {
    LIST_QUERY_HEAD@ + decimal(DEFAULT_PAGE_SIZE_WIRE as nat) + LIST_QUERY_MID@ + decimal(
        MAX_PAGE_SIZE_WIRE as nat,
    ) + LIST_QUERY_TAIL@
}

/// The body of `generated/list_query.ts`.
pub fn build_list_query_ts() -> (r: String)
    ensures
        r@ == list_query_ts_spec(),
{
    let mut out = owned(LIST_QUERY_HEAD);
    let d = u32_decimal(DEFAULT_PAGE_SIZE_WIRE);
    out.append(d.as_str());
    out.append(LIST_QUERY_MID);
    let m = u32_decimal(MAX_PAGE_SIZE_WIRE);
    out.append(m.as_str());
    out.append(LIST_QUERY_TAIL);
    out
}

/// A column name as a single-quoted TS string literal.
pub open spec fn quoted_name(n: Seq<char>) -> Seq<char> {
    "'"@ + escape_sq(n) + "'"@
}

/// A TS array literal of the names, in the given order (`[]` when empty).
pub open spec fn name_set_spec(names: Seq<Seq<char>>) -> Seq<char> {
    if names.len() == 0 {
        "[]"@
    } else {
        "["@ + join(names.map_values(|n: Seq<char>| quoted_name(n)), ", "@) + "]"@
    }
}

/// Renders column names as a TS array literal of quoted strings.
pub fn ts_field_name_set(names: &Vec<String>) -> (r: String)
    ensures
        r@ == name_set_spec(views(names@)),
{
    if names.len() == 0 {
        return owned("[]");
    }
    let mut parts: Vec<String> = Vec::new();
    let mut i: usize = 0;
    while i < names.len()
        invariant
            i <= names.len(),
            views(parts@) == views(names@).take(i as int).map_values(|n: Seq<char>| quoted_name(n)),
        decreases names.len() - i,
    {
        let mut p = owned("'");
        let e = escape_single_quoted(names[i].as_str());
        p.append(e.as_str());
        p.append("'");
        let ghost before = views(parts@);
        let ghost pv = p@;
        parts.push(p);
        assert(views(parts@) =~= before.push(pv));
        assert(views(names@).take(i + 1).map_values(|n: Seq<char>| quoted_name(n)) =~= views(names@).take(
            i as int,
        ).map_values(|n: Seq<char>| quoted_name(n)).push(quoted_name(names@[i as int]@)));
        i = i + 1;
    }
    assert(views(names@).take(names.len() as int) =~= views(names@));
    let j = join_strings(&parts, ", ");
    let mut out = owned("[");
    out.append(j.as_str());
    out.append("]");
    out
}

/// Sortable columns as a set: distinct, in name order.
pub open spec fn sortable_names(o: ListOptions) -> Seq<Seq<char>> {
    sorted_distinct(o.sortable_columns@.map_values(|f: FieldName| f@))
}

/// Filterable column names as a set: distinct, in name order.
pub open spec fn filterable_names(o: ListOptions) -> Seq<Seq<char>> {
    sorted_distinct(o.filterable_columns@.map_values(|p: (FieldName, FilterKind)| p.0@))
}

pub open spec fn default_sort_literal(o: ListOptions) -> Seq<char> {
    match o.default_sort {
        Some(s) => quoted_name(s@),
        None => "undefined"@,
    }
}

pub open spec fn max_page_of(o: ListOptions) -> nat {
    match o.max_page_size {
        Some(v) => v as nat,
        None => MAX_PAGE_SIZE_WIRE as nat,
    }
}

pub const LIST_TS_0: &'static str = "export const SORTABLE_COLUMNS = ";

pub const LIST_TS_1: &'static str = " as const\nexport const FILTERABLE_COLUMNS = ";

pub const LIST_TS_2: &'static str = " as const\nexport const DEFAULT_SORT: string | undefined = ";

pub const LIST_TS_3: &'static str = "\nexport const MAX_PAGE_SIZE: number = ";

pub const LIST_TS_4: &'static str = "\n\nexport type SortableColumn = typeof SORTABLE_COLUMNS[number]\nexport type FilterableColumn = typeof FILTERABLE_COLUMNS[number]\n\nexport function isSortable(col: string): col is SortableColumn {\nreturn (SORTABLE_COLUMNS as readonly string[]).includes(col)\n}\n\nexport function isFilterable(col: string): col is FilterableColumn {\nreturn (FILTERABLE_COLUMNS as readonly string[]).includes(col)\n}\n";

pub open spec fn list_ts_pieces(sortable: Seq<char>, filterable: Seq<char>, default_sort: Seq<char>, max_page: Seq<char>) -> Seq<char> {
    LIST_TS_0@ + sortable + LIST_TS_1@ + filterable + LIST_TS_2@ + default_sort + LIST_TS_3@ + max_page + LIST_TS_4@
}

/// `<table>_list.ts` for a list verb: the sortable and filterable column
/// sets, the default sort and the page-size ceiling.
pub open spec fn resource_list_ts_spec(v: VerbState) -> Seq<char> {
    match v.list_options {
        Some(o) => list_ts_pieces(
            name_set_spec(sortable_names(o)),
            name_set_spec(filterable_names(o)),
            default_sort_literal(o),
            decimal(max_page_of(o)),
        ),
        None => list_ts_pieces("[]"@, "[]"@, "undefined"@, decimal(MAX_PAGE_SIZE_WIRE as nat)),
    }
}

fn sortable_strings(o: &ListOptions) -> (r: Vec<String>)
    ensures
        views(r@) == sortable_names(*o),
{
    let mut v: Vec<String> = Vec::new();
    let mut i: usize = 0;
    while i < o.sortable_columns.len()
        invariant
            i <= o.sortable_columns.len(),
            views(v@) == o.sortable_columns@.take(i as int).map_values(|f: FieldName| f@),
        decreases o.sortable_columns.len() - i,
    {
        let s = owned(o.sortable_columns[i].as_str());
        let ghost before = views(v@);
        let ghost sv = s@;
        v.push(s);
        assert(views(v@) =~= before.push(sv));
        assert(o.sortable_columns@.take(i + 1).map_values(|f: FieldName| f@) =~= o.sortable_columns@.take(
            i as int,
        ).map_values(|f: FieldName| f@).push(o.sortable_columns@[i as int]@));
        i = i + 1;
    }
    assert(o.sortable_columns@.take(o.sortable_columns.len() as int) =~= o.sortable_columns@);
    sort_dedup_strings(v)
}

fn filterable_strings(o: &ListOptions) -> (r: Vec<String>)
    ensures
        views(r@) == filterable_names(*o),
{
    let mut v: Vec<String> = Vec::new();
    let mut i: usize = 0;
    while i < o.filterable_columns.len()
        invariant
            i <= o.filterable_columns.len(),
            views(v@) == o.filterable_columns@.take(i as int).map_values(|p: (FieldName, FilterKind)| p.0@),
        decreases o.filterable_columns.len() - i,
    {
        let s = owned(o.filterable_columns[i].0.as_str());
        let ghost before = views(v@);
        let ghost sv = s@;
        v.push(s);
        assert(views(v@) =~= before.push(sv));
        assert(o.filterable_columns@.take(i + 1).map_values(|p: (FieldName, FilterKind)| p.0@) =~= o.filterable_columns@.take(
            i as int,
        ).map_values(|p: (FieldName, FilterKind)| p.0@).push(o.filterable_columns@[i as int].0@));
        i = i + 1;
    }
    assert(o.filterable_columns@.take(o.filterable_columns.len() as int) =~= o.filterable_columns@);
    sort_dedup_strings(v)
}

fn assemble_list_ts(sortable: &str, filterable: &str, default_sort: &str, max_page: &str) -> (r: String)
    ensures
        r@ == list_ts_pieces(sortable@, filterable@, default_sort@, max_page@),
{
    let mut out = owned(LIST_TS_0);
    out.append(sortable);
    out.append(LIST_TS_1);
    out.append(filterable);
    out.append(LIST_TS_2);
    out.append(default_sort);
    out.append(LIST_TS_3);
    out.append(max_page);
    out.append(LIST_TS_4);
    out
}

/// The body of `<table>_list.ts` for a resource's list verb.
pub fn build_resource_list_ts(verb: &VerbState) -> (r: String)
    ensures
        r@ == resource_list_ts_spec(*verb),
{
    match &verb.list_options {
        Some(opts) => {
            let sortable = ts_field_name_set(&sortable_strings(opts));
            let filterable = ts_field_name_set(&filterable_strings(opts));
            let default_sort = match &opts.default_sort {
                Some(s) => {
                    let mut q = owned("'");
                    let e = escape_single_quoted(s.as_str());
                    q.append(e.as_str());
                    q.append("'");
                    q
                },
                None => owned("undefined"),
            };
            let max_page = match opts.max_page_size {
                Some(v) => v,
                None => MAX_PAGE_SIZE_WIRE,
            };
            let mp = u32_decimal(max_page);
            assemble_list_ts(sortable.as_str(), filterable.as_str(), default_sort.as_str(), mp.as_str())
        },
        None => {
            let mp = u32_decimal(MAX_PAGE_SIZE_WIRE);
            assemble_list_ts("[]", "[]", "undefined", mp.as_str())
        },
    }
}

/// `export * from './<name><suffix>'` followed by a newline.
pub open spec fn export_star(suffix: Seq<char>) -> spec_fn(Seq<char>) -> Seq<char> {
    |n: Seq<char>| "export * from './"@ + n + suffix + "'\n"@
}

pub open spec fn resource_names(rs: Seq<ResourceState>) -> Seq<Seq<char>> {
    rs.map_values(|r: ResourceState| r.name@)
}

/// Table names of the resources that declare a list verb, in input order.
pub open spec fn list_resource_names(rs: Seq<ResourceState>) -> Seq<Seq<char>>
    decreases rs.len(),
{
    if rs.len() == 0 {
        seq![]
    } else {
        let rest = list_resource_names(rs.drop_last());
        if rs.last().declares(Verb::List) {
            rest.push(rs.last().name@)
        } else {
            rest
        }
    }
}

/// `validators/index.ts`: one re-export per resource, in name order.
pub open spec fn validators_index_spec(rs: Seq<ResourceState>) -> Seq<char> {
    concat_map(resource_names(rs).sort_by(lex()), export_star(""@))
}

/// `queries/index.ts`: one re-export per list helper, in name order.
pub open spec fn list_helpers_index_spec(rs: Seq<ResourceState>) -> Seq<char> {
    concat_map(list_resource_names(rs).sort_by(lex()), export_star("_list"@))
}

fn export_lines(names: &Vec<String>, suffix: &str) -> (r: String)
    ensures
        r@ == concat_map(views(names@), export_star(suffix@)),
{
    let ghost f = export_star(suffix@);
    let mut out = String::new();
    let mut i: usize = 0;
    proof {
        reveal_strlit("");
        assert(views(names@).take(0) =~= Seq::<Seq<char>>::empty());
    }
    while i < names.len()
        invariant
            i <= names.len(),
            f == export_star(suffix@),
            out@ == concat_map(views(names@).take(i as int), f),
        decreases names.len() - i,
    {
        out.append("export * from './");
        out.append(names[i].as_str());
        out.append(suffix);
        out.append("'\n");
        proof {
            lemma_concat_map_step(views(names@), i as int, f);
        }
        i = i + 1;
    }
    proof {
        lemma_concat_map_all(views(names@), f);
    }
    out
}

fn names_of(resources: &Vec<ResourceState>, only_lists: bool) -> (r: Vec<String>)
    ensures
        views(r@) == (if only_lists { list_resource_names(resources@) } else { resource_names(resources@) }),
{
    let mut v: Vec<String> = Vec::new();
    let mut i: usize = 0;
    while i < resources.len()
        invariant
            i <= resources.len(),
            views(v@) == (if only_lists { list_resource_names(resources@.take(i as int)) } else { resource_names(
                resources@.take(i as int),
            ) }),
        decreases resources.len() - i,
    {
        let ghost t = resources@.take(i + 1);
        assert(t.drop_last() =~= resources@.take(i as int));
        assert(t.last() == resources@[i as int]);
        assert(resource_names(t) =~= resource_names(resources@.take(i as int)).push(resources@[i as int].name@));
        if !only_lists || resources[i].has_verb(Verb::List) {
            let s = owned(resources[i].name.as_str());
            let ghost before = views(v@);
            let ghost sv = s@;
            v.push(s);
            assert(views(v@) =~= before.push(sv));
        }
        i = i + 1;
    }
    assert(resources@.take(resources.len() as int) =~= resources@);
    v
}

/// The body of `generated/validators/index.ts`.
pub fn validators_index(resources: &Vec<ResourceState>) -> (r: String)
    ensures
        r@ == validators_index_spec(resources@),
{
    let names = sort_strings(names_of(resources, false));
    export_lines(&names, "")
}

/// The body of `generated/queries/index.ts`.
pub fn list_helpers_index(resources: &Vec<ResourceState>) -> (r: String)
    ensures
        r@ == list_helpers_index_spec(resources@),
{
    let names = sort_strings(names_of(resources, true));
    export_lines(&names, "_list")
}

/// (file name, body) of each list helper, in input order.
pub open spec fn list_helper_files_from(rs: Seq<ResourceState>) -> Seq<(Seq<char>, Seq<char>)>
    decreases rs.len(),
{
    if rs.len() == 0 {
        seq![]
    } else {
        let rest = list_helper_files_from(rs.drop_last());
        let r = rs.last();
        match verb_lookup(r.verbs@, Verb::List) {
            Some(v) => rest.push((r.name@ + "_list.ts"@, resource_list_ts_spec(v))),
            None => rest,
        }
    }
}

/// Every file under `generated/queries/`: one helper per resource with a
/// list verb, in input order, then `index.ts`.
pub open spec fn list_helper_files_spec(rs: Seq<ResourceState>) -> Seq<(Seq<char>, Seq<char>)> {
    list_helper_files_from(rs).push(("index.ts"@, list_helpers_index_spec(rs)))
}

/// The files of the per-resource list helpers (without generated-file
/// markers, which are empty).
pub fn list_helper_files(resources: &Vec<ResourceState>) -> (r: Vec<(String, String)>)
    ensures
        file_pairs(r@) == list_helper_files_spec(resources@),
{
    let mut out: Vec<(String, String)> = Vec::new();
    let mut i: usize = 0;
    while i < resources.len()
        invariant
            i <= resources.len(),
            file_pairs(out@) == list_helper_files_from(resources@.take(i as int)),
        decreases resources.len() - i,
    {
        let ghost t = resources@.take(i + 1);
        assert(t.drop_last() =~= resources@.take(i as int));
        assert(t.last() == resources@[i as int]);
        let r = &resources[i];
        match r.verb_state(Verb::List) {
            Some(v) => {
                let mut name = owned(r.name.as_str());
                name.append("_list.ts");
                let body = build_resource_list_ts(v);
                let ghost before = file_pairs(out@);
                let ghost pv = (name@, body@);
                out.push((name, body));
                assert(file_pairs(out@) =~= before.push(pv));
            },
            None => {},
        }
        i = i + 1;
    }
    assert(resources@.take(resources.len() as int) =~= resources@);
    let index = list_helpers_index(resources);
    let ghost before = file_pairs(out@);
    let ghost iv = index@;
    out.push((owned("index.ts"), index));
    assert(file_pairs(out@) =~= before.push(("index.ts"@, iv)));
    out
}

} // verus!
