//! TypeScript API client (fetch functions) for one resource.
use vstd::prelude::*;
use vstd::string::*;
use crate::codegen::structs_naming::{type_stem_for_resource, type_stem_spec};
use crate::state::{ResourceState, Verb};
use crate::codegen::composables_v2::render::{resource_ts_spec, v2_api_line, v2_api_names, v2_imports_spec};
use crate::text::{join, join_strings, owned, seq_contains, trim_end_newlines, views, with_single_trailing_newline};

pub use crate::codegen::composables::render::plural_of_pascal;

verus! {

/// The name of the list function: `list`, the type stem, then `s`; the
/// name the composables import as `apiList`.
pub open spec fn api_list_name(singular: Seq<char>) -> Seq<char> {
    "list"@ + singular + "s"@
}

/// The list function's text before its `export` line: the envelope and
/// result interfaces.
pub open spec fn list_fn_head(singular: Seq<char>) -> Seq<char> {
    "interface "@
        + singular
        + "ListEnvelope {\nitems: "@
        + singular
        + "Public[]\ntotal: number\ntotal_pages: number\npage: number\npage_size: number\n}\n\nexport interface "@
        + singular
        + "ListResult {\ndata: "@
        + singular
        + "Public[] | null\nerror: MeltDownResponse | null\ntotal: number\ntotal_pages: number\npage: number\npage_size: number\n}\n\n"@
}

/// The list function's text after `export async function <name>(`.
pub open spec fn list_fn_tail(table: Seq<char>, singular: Seq<char>) -> Seq<char> {
    "\nparams: { page?: number; page_size?: number; sort?: string | null; filter?: { [key: string]: string | number | boolean | null | undefined } | null },\nsignal?: AbortSignal,\n): Promise<"@
        + singular
        + "ListResult> {\nconst url = new URL(`/api/"@
        + table
        + "/`, window.location.origin)\nif (params.page !== undefined) {\nurl.searchParams.set('page', String(params.page))\n}\nif (params.page_size !== undefined) {\nurl.searchParams.set('page_size', String(params.page_size))\n}\nif (params.sort !== undefined && params.sort !== null) {\nurl.searchParams.set('sort', params.sort)\n}\nif (params.filter !== null && params.filter !== undefined) {\nfor (const [key, val] of Object.entries(params.filter)) {\nif (val === null || val === undefined) {\ncontinue\n}\nconst serialized = typeof val === 'object' ? JSON.stringify(val) : String(val)\nurl.searchParams.set(`filter[${key}]`, serialized)\n}\n}\nconst path = url.pathname + url.search\ntry {\nconst res = await fetch(path, {\nheaders: { ...auth_header(), Accept: 'application/json' },\nsignal,\n})\nif (!res.ok) {\nconst err = (await res.json()) as MeltDownResponse\nreturn { data: null, error: err, total: 0, total_pages: 0, page: 0, page_size: 0 }\n}\nconst envelope = (await res.json()) as "@
        + singular
        + "ListEnvelope\nreturn { data: envelope.items, error: null, total: envelope.total, total_pages: envelope.total_pages, page: envelope.page, page_size: envelope.page_size }\n} catch (e) {\nif (e instanceof DOMException && e.name === 'AbortError') {\nreturn { data: null, error: null, total: 0, total_pages: 0, page: 0, page_size: 0 }\n}\nconst err: MeltDownResponse = { error: { code: 0, type: 'NetworkError', message: 'Network error', context: null } }\nreturn { data: null, error: err, total: 0, total_pages: 0, page: 0, page_size: 0 }\n}\n}\n"@
}

/// The export line's start: `export async function <name>(`.
pub open spec fn export_fn_start(name: Seq<char>) -> Seq<char> {
    "export async function "@ + name + "("@
}

/// The list function `name`: one page of records with the pagination envelope.
pub open spec fn list_fn_spec(table: Seq<char>, singular: Seq<char>, name: Seq<char>) -> Seq<char> {
    list_fn_head(singular) + export_fn_start(name) + list_fn_tail(table, singular)
}

fn render_list_head(singular: &str) -> (r: String)
    ensures
        r@ == list_fn_head(singular@),
{
    let mut out = owned("interface ");
    out.append(singular);
    out.append("ListEnvelope {\nitems: ");
    out.append(singular);
    out.append("Public[]\ntotal: number\ntotal_pages: number\npage: number\npage_size: number\n}\n\nexport interface ");
    out.append(singular);
    out.append("ListResult {\ndata: ");
    out.append(singular);
    out.append("Public[] | null\nerror: MeltDownResponse | null\ntotal: number\ntotal_pages: number\npage: number\npage_size: number\n}\n\n");
    out
}

fn render_list_tail(table: &str, singular: &str) -> (r: String)
    ensures
        r@ == list_fn_tail(table@, singular@),
{
    let mut out = owned("\nparams: { page?: number; page_size?: number; sort?: string | null; filter?: { [key: string]: string | number | boolean | null | undefined } | null },\nsignal?: AbortSignal,\n): Promise<");
    out.append(singular);
    out.append("ListResult> {\nconst url = new URL(`/api/");
    out.append(table);
    out.append("/`, window.location.origin)\nif (params.page !== undefined) {\nurl.searchParams.set('page', String(params.page))\n}\nif (params.page_size !== undefined) {\nurl.searchParams.set('page_size', String(params.page_size))\n}\nif (params.sort !== undefined && params.sort !== null) {\nurl.searchParams.set('sort', params.sort)\n}\nif (params.filter !== null && params.filter !== undefined) {\nfor (const [key, val] of Object.entries(params.filter)) {\nif (val === null || val === undefined) {\ncontinue\n}\nconst serialized = typeof val === 'object' ? JSON.stringify(val) : String(val)\nurl.searchParams.set(`filter[${key}]`, serialized)\n}\n}\nconst path = url.pathname + url.search\ntry {\nconst res = await fetch(path, {\nheaders: { ...auth_header(), Accept: 'application/json' },\nsignal,\n})\nif (!res.ok) {\nconst err = (await res.json()) as MeltDownResponse\nreturn { data: null, error: err, total: 0, total_pages: 0, page: 0, page_size: 0 }\n}\nconst envelope = (await res.json()) as ");
    out.append(singular);
    out.append("ListEnvelope\nreturn { data: envelope.items, error: null, total: envelope.total, total_pages: envelope.total_pages, page: envelope.page, page_size: envelope.page_size }\n} catch (e) {\nif (e instanceof DOMException && e.name === 'AbortError') {\nreturn { data: null, error: null, total: 0, total_pages: 0, page: 0, page_size: 0 }\n}\nconst err: MeltDownResponse = { error: { code: 0, type: 'NetworkError', message: 'Network error', context: null } }\nreturn { data: null, error: err, total: 0, total_pages: 0, page: 0, page_size: 0 }\n}\n}\n");
    out
}

fn render_list_fn(table: &str, singular: &str, name: &str) -> (r: String)
    ensures
        r@ == list_fn_spec(table@, singular@, name@),
{
    let mut out = render_list_head(singular);
    out.append("export async function ");
    out.append(name);
    out.append("(");
    let tail = render_list_tail(table, singular);
    out.append(tail.as_str());
    out
}

/// `get<Singular>`: one record by id.
pub open spec fn get_fn_spec(table: Seq<char>, singular: Seq<char>) -> Seq<char> {
    "export async function get"@
        + singular
        + "(\nid: number,\nsignal?: AbortSignal,\n): ApiResult<"@
        + singular
        + "Public> {\ntry {\nconst res = await fetch(`/api/"@
        + table
        + "/${id}`, {\nheaders: { ...auth_header(), Accept: 'application/json' },\nsignal,\n})\nif (!res.ok) {\nconst err = (await res.json()) as MeltDownResponse\nreturn { data: null, error: err }\n}\nconst data = (await res.json()) as "@
        + singular
        + "Public\nreturn { data, error: null }\n} catch (e) {\nif (e instanceof DOMException && e.name === 'AbortError') {\nreturn { data: null, error: null }\n}\nconst err: MeltDownResponse = { error: { code: 0, type: 'NetworkError', message: 'Network error', context: null } }\nreturn { data: null, error: err }\n}\n}\n"@
}

fn render_get_fn(table: &str, singular: &str) -> (r: String)
    ensures
        r@ == get_fn_spec(table@, singular@),
{
    let mut out = owned("export async function get");
    out.append(singular);
    out.append("(\nid: number,\nsignal?: AbortSignal,\n): ApiResult<");
    out.append(singular);
    out.append("Public> {\ntry {\nconst res = await fetch(`/api/");
    out.append(table);
    out.append("/${id}`, {\nheaders: { ...auth_header(), Accept: 'application/json' },\nsignal,\n})\nif (!res.ok) {\nconst err = (await res.json()) as MeltDownResponse\nreturn { data: null, error: err }\n}\nconst data = (await res.json()) as ");
    out.append(singular);
    out.append("Public\nreturn { data, error: null }\n} catch (e) {\nif (e instanceof DOMException && e.name === 'AbortError') {\nreturn { data: null, error: null }\n}\nconst err: MeltDownResponse = { error: { code: 0, type: 'NetworkError', message: 'Network error', context: null } }\nreturn { data: null, error: err }\n}\n}\n");
    out
}

/// `create<Singular>`: POST a new record.
pub open spec fn create_fn_spec(table: Seq<char>, singular: Seq<char>) -> Seq<char> {
    "export async function create"@
        + singular
        + "(\nbody: "@
        + singular
        + "Insertable,\n): ApiResult<"@
        + singular
        + "Public> {\ntry {\nconst res = await fetch(`/api/"@
        + table
        + "/`, {\nmethod: 'POST',\nheaders: { ...auth_header(), 'Content-Type': 'application/json', Accept: 'application/json' },\nbody: JSON.stringify(body),\n})\nif (!res.ok) {\nconst err = (await res.json()) as MeltDownResponse\nreturn { data: null, error: err }\n}\nconst data = (await res.json()) as "@
        + singular
        + "Public\nreturn { data, error: null }\n} catch (e) {\nconst err: MeltDownResponse = { error: { code: 0, type: 'NetworkError', message: 'Network error', context: null } }\nreturn { data: null, error: err }\n}\n}\n"@
}

fn render_create_fn(table: &str, singular: &str) -> (r: String)
    ensures
        r@ == create_fn_spec(table@, singular@),
{
    let mut out = owned("export async function create");
    out.append(singular);
    out.append("(\nbody: ");
    out.append(singular);
    out.append("Insertable,\n): ApiResult<");
    out.append(singular);
    out.append("Public> {\ntry {\nconst res = await fetch(`/api/");
    out.append(table);
    out.append("/`, {\nmethod: 'POST',\nheaders: { ...auth_header(), 'Content-Type': 'application/json', Accept: 'application/json' },\nbody: JSON.stringify(body),\n})\nif (!res.ok) {\nconst err = (await res.json()) as MeltDownResponse\nreturn { data: null, error: err }\n}\nconst data = (await res.json()) as ");
    out.append(singular);
    out.append("Public\nreturn { data, error: null }\n} catch (e) {\nconst err: MeltDownResponse = { error: { code: 0, type: 'NetworkError', message: 'Network error', context: null } }\nreturn { data: null, error: err }\n}\n}\n");
    out
}

/// `update<Singular>`: PATCH a record.
pub open spec fn update_fn_spec(table: Seq<char>, singular: Seq<char>) -> Seq<char> {
    "export async function update"@
        + singular
        + "(\nid: number,\npatch: "@
        + singular
        + "Patch,\n): ApiResult<"@
        + singular
        + "Public> {\ntry {\nconst res = await fetch(`/api/"@
        + table
        + "/${id}`, {\nmethod: 'PATCH',\nheaders: { ...auth_header(), 'Content-Type': 'application/json', Accept: 'application/json' },\nbody: JSON.stringify(patch),\n})\nif (!res.ok) {\nconst err = (await res.json()) as MeltDownResponse\nreturn { data: null, error: err }\n}\nconst data = (await res.json()) as "@
        + singular
        + "Public\nreturn { data, error: null }\n} catch (e) {\nconst err: MeltDownResponse = { error: { code: 0, type: 'NetworkError', message: 'Network error', context: null } }\nreturn { data: null, error: err }\n}\n}\n"@
}

fn render_update_fn(table: &str, singular: &str) -> (r: String)
    ensures
        r@ == update_fn_spec(table@, singular@),
{
    let mut out = owned("export async function update");
    out.append(singular);
    out.append("(\nid: number,\npatch: ");
    out.append(singular);
    out.append("Patch,\n): ApiResult<");
    out.append(singular);
    out.append("Public> {\ntry {\nconst res = await fetch(`/api/");
    out.append(table);
    out.append("/${id}`, {\nmethod: 'PATCH',\nheaders: { ...auth_header(), 'Content-Type': 'application/json', Accept: 'application/json' },\nbody: JSON.stringify(patch),\n})\nif (!res.ok) {\nconst err = (await res.json()) as MeltDownResponse\nreturn { data: null, error: err }\n}\nconst data = (await res.json()) as ");
    out.append(singular);
    out.append("Public\nreturn { data, error: null }\n} catch (e) {\nconst err: MeltDownResponse = { error: { code: 0, type: 'NetworkError', message: 'Network error', context: null } }\nreturn { data: null, error: err }\n}\n}\n");
    out
}

/// `delete<Singular>`: DELETE a record.
pub open spec fn delete_fn_spec(table: Seq<char>, singular: Seq<char>) -> Seq<char> {
    "export async function delete"@
        + singular
        + "(\nid: number,\n): ApiResult<{ id: number }> {\ntry {\nconst res = await fetch(`/api/"@
        + table
        + "/${id}`, {\nmethod: 'DELETE',\nheaders: { ...auth_header(), Accept: 'application/json' },\n})\nif (!res.ok) {\nconst err = (await res.json()) as MeltDownResponse\nreturn { data: null, error: err }\n}\nreturn { data: { id }, error: null }\n} catch (e) {\nconst err: MeltDownResponse = { error: { code: 0, type: 'NetworkError', message: 'Network error', context: null } }\nreturn { data: null, error: err }\n}\n}\n"@
}

fn render_delete_fn(table: &str, singular: &str) -> (r: String)
    ensures
        r@ == delete_fn_spec(table@, singular@),
{
    let mut out = owned("export async function delete");
    out.append(singular);
    out.append("(\nid: number,\n): ApiResult<{ id: number }> {\ntry {\nconst res = await fetch(`/api/");
    out.append(table);
    out.append("/${id}`, {\nmethod: 'DELETE',\nheaders: { ...auth_header(), Accept: 'application/json' },\n})\nif (!res.ok) {\nconst err = (await res.json()) as MeltDownResponse\nreturn { data: null, error: err }\n}\nreturn { data: { id }, error: null }\n} catch (e) {\nconst err: MeltDownResponse = { error: { code: 0, type: 'NetworkError', message: 'Network error', context: null } }\nreturn { data: null, error: err }\n}\n}\n");
    out
}

/// Type names imported from the resource's type module.
pub open spec fn api_type_imports(s: Seq<char>, r: ResourceState) -> Seq<Seq<char>> {
    (if r.declares(Verb::List) || r.declares(Verb::Get) || r.declares(Verb::Create) || r.declares(Verb::Update) {
        seq!["type "@ + s + "Public"@]
    } else {
        seq![]
    }) + (if r.declares(Verb::Create) { seq!["type "@ + s + "Insertable"@] } else { seq![] }) + (if r.declares(
        Verb::Update,
    ) {
        seq!["type "@ + s + "Patch"@]
    } else {
        seq![]
    })
}

/// The import lines and the shared helpers of the client module.
pub open spec fn api_head_spec(r: ResourceState) -> Seq<char> {
    let s = type_stem_spec(r);
    (if api_type_imports(s, r).len() > 0 {
        "import { "@ + join(api_type_imports(s, r), ", "@) + " } from '@/generated/types/"@ + r.name@ + "'\n"@
    } else {
        Seq::<char>::empty()
    })
        + "import type { MeltDownResponse } from '@/generated/types/meltdown'\n\nfunction auth_header(): Record<string, string> {\n  const token = localStorage.getItem('token')\n  if (token === null) {\n    return {}\n  }\n  return { Authorization: `Bearer ${token}` }\n}\n\ntype ApiResult<T> = Promise<{ data: T | null; error: MeltDownResponse | null }>\n\n"@
}

fn render_api_head(resource: &ResourceState, s: &str) -> (r: String)
    requires
        s@ == type_stem_spec(*resource),
    ensures
        r@ == api_head_spec(*resource),
{
    let mut names: Vec<String> = Vec::new();
    if resource.has_verb(Verb::List) || resource.has_verb(Verb::Get) || resource.has_verb(Verb::Create)
        || resource.has_verb(Verb::Update) {
        let mut n = owned("type ");
        n.append(s);
        n.append("Public");
        names.push(n);
    }
    if resource.has_verb(Verb::Create) {
        let mut n = owned("type ");
        n.append(s);
        n.append("Insertable");
        names.push(n);
    }
    if resource.has_verb(Verb::Update) {
        let mut n = owned("type ");
        n.append(s);
        n.append("Patch");
        names.push(n);
    }
    assert(views(names@) =~= api_type_imports(s@, *resource));
    let mut out = String::new();
    if names.len() > 0 {
        let j = join_strings(&names, ", ");
        out.append("import { ");
        out.append(j.as_str());
        out.append(" } from '@/generated/types/");
        out.append(resource.name.as_str());
        out.append("'\n");
    }
    let ghost a = out@;
    out.append("import type { MeltDownResponse } from '@/generated/types/meltdown'\n\nfunction auth_header(): Record<string, string> {\n  const token = localStorage.getItem('token')\n  if (token === null) {\n    return {}\n  }\n  return { Authorization: `Bearer ${token}` }\n}\n\ntype ApiResult<T> = Promise<{ data: T | null; error: MeltDownResponse | null }>\n\n");
    proof {
        reveal_strlit("");
    }
    assert(out@ =~= api_head_spec(*resource));
    out
}

/// One verb's fetch function followed by a blank line (empty when the verb
/// is not declared).
pub open spec fn api_section_spec(r: ResourceState, v: Verb) -> Seq<char> {
    let table = r.name@;
    let s = type_stem_spec(r);
    if !r.declares(v) {
        Seq::<char>::empty()
    } else {
        (match v {
            Verb::List => list_fn_spec(table, s, api_list_name(s)),
            Verb::Get => get_fn_spec(table, s),
            Verb::Create => create_fn_spec(table, s),
            Verb::Update => update_fn_spec(table, s),
            Verb::Delete => delete_fn_spec(table, s),
        }) + "\n"@
    }
}

fn render_api_section(resource: &ResourceState, v: Verb, s: &str, list_name: &str) -> (r: String)
    requires
        s@ == type_stem_spec(*resource),
        list_name@ == api_list_name(s@),
    ensures
        r@ == api_section_spec(*resource, v),
{
    if !resource.has_verb(v) {
        return String::new();
    }
    let table = resource.name.as_str();
    let mut out = match v {
        Verb::List => render_list_fn(table, s, list_name),
        Verb::Get => render_get_fn(table, s),
        Verb::Create => render_create_fn(table, s),
        Verb::Update => render_update_fn(table, s),
        Verb::Delete => render_delete_fn(table, s),
    };
    out.append("\n");
    out
}

/// `src/generated/api/<table>.ts`: imports, helpers and one fetch function
/// per declared verb, ending in exactly one newline.
pub open spec fn resource_api_spec(r: ResourceState) -> Seq<char> {
    trim_end_newlines(
        api_head_spec(r) + api_section_spec(r, Verb::List) + api_section_spec(r, Verb::Get) + api_section_spec(
            r,
            Verb::Create,
        ) + api_section_spec(r, Verb::Update) + api_section_spec(r, Verb::Delete),
    ) + "\n"@
}

/// Build the TypeScript API client module of a resource.
pub fn build_resource_api(resource: &ResourceState) -> (r: String)
    ensures
        r@ == resource_api_spec(*resource),
{
    let table = resource.name.as_str();
    let singular = type_stem_for_resource(resource);
    let mut list_name = owned("list");
    list_name.append(singular.as_str());
    list_name.append("s");
    let mut out = render_api_head(resource, singular.as_str());
    let a = render_api_section(resource, Verb::List, singular.as_str(), list_name.as_str());
    out.append(a.as_str());
    let b = render_api_section(resource, Verb::Get, singular.as_str(), list_name.as_str());
    out.append(b.as_str());
    let c = render_api_section(resource, Verb::Create, singular.as_str(), list_name.as_str());
    out.append(c.as_str());
    let d = render_api_section(resource, Verb::Update, singular.as_str(), list_name.as_str());
    out.append(d.as_str());
    let e = render_api_section(resource, Verb::Delete, singular.as_str(), list_name.as_str());
    out.append(e.as_str());
    let r = with_single_trailing_newline(&out);
    assert(seq!['\n'] =~= "\n"@) by {
        reveal_strlit("\n");
    }
    r
}


proof fn lemma_contains_middle(p: Seq<char>, x: Seq<char>, q: Seq<char>)
    ensures
        seq_contains(p + x + q, x),
{
    let t = p + x + q;
    assert(t.subrange(p.len() as int, (p.len() + x.len()) as int) =~= x);
}

proof fn lemma_contains_within(s: Seq<char>, x: Seq<char>, p: Seq<char>, q: Seq<char>)
    requires
        seq_contains(s, x),
    ensures
        seq_contains(p + s + q, x),
{
    let i = choose|i: int| 0 <= i <= s.len() - x.len() && #[trigger] s.subrange(i, i + x.len()) == x;
    let t = p + s + q;
    assert(t.subrange(p.len() + i, p.len() + i + x.len()) =~= s.subrange(i, i + x.len()));
}

proof fn lemma_trim_keeps(s: Seq<char>, k: int)
    requires
        0 <= k < s.len(),
        s[k] != '\n',
    ensures
        k < trim_end_newlines(s).len() <= s.len(),
        trim_end_newlines(s) == s.take(trim_end_newlines(s).len() as int),
    decreases s.len(),
{
    if s.last() == '\n' {
        lemma_trim_keeps(s.drop_last(), k);
        let n = trim_end_newlines(s).len() as int;
        assert(s.drop_last().take(n) =~= s.take(n));
    } else {
        assert(s.take(s.len() as int) =~= s);
    }
}

proof fn lemma_contains_trimmed(s: Seq<char>, x: Seq<char>)
    requires
        seq_contains(s, x),
        x.len() > 0,
        x.last() != '\n',
    ensures
        seq_contains(trim_end_newlines(s), x),
{
    let i = choose|i: int| 0 <= i <= s.len() - x.len() && #[trigger] s.subrange(i, i + x.len()) == x;
    assert(s[i + x.len() - 1] == s.subrange(i, i + x.len())[x.len() - 1]);
    lemma_trim_keeps(s, i + x.len() - 1);
    let t = trim_end_newlines(s);
    assert(t.subrange(i, i + x.len()) =~= s.subrange(i, i + x.len()));
}

proof fn lemma_contains_left(a: Seq<char>, x: Seq<char>, b: Seq<char>)
    requires
        seq_contains(a, x),
    ensures
        seq_contains(a + b, x),
{
    lemma_contains_within(a, x, Seq::<char>::empty(), b);
    assert(Seq::<char>::empty() + a + b =~= a + b);
}

proof fn lemma_contains_right(a: Seq<char>, b: Seq<char>, x: Seq<char>)
    requires
        seq_contains(b, x),
    ensures
        seq_contains(a + b, x),
{
    lemma_contains_within(b, x, a, Seq::<char>::empty());
    assert(a + b + Seq::<char>::empty() =~= a + b);
}

proof fn lemma_starts_contains(a: Seq<char>, x: Seq<char>)
    requires
        x.len() <= a.len(),
        forall|i: int| 0 <= i < x.len() ==> a[i] == x[i],
    ensures
        seq_contains(a, x),
{
    let zero: int = 0;
    assert(a.subrange(zero, zero + x.len()) =~= x);
}

proof fn lemma_get_fn_starts(t: Seq<char>, s: Seq<char>)
    ensures
        seq_contains(get_fn_spec(t, s), export_fn_start("get"@ + s)),
{
    let f = get_fn_spec(t, s);
    let x = export_fn_start("get"@ + s);
    reveal_strlit("export async function get");
    reveal_strlit("export async function ");
    reveal_strlit("get");
    reveal_strlit("(");
    reveal_strlit("(\nid: number,\nsignal?: AbortSignal,\n): ApiResult<");
    assert(x.len() <= f.len());
    assert forall|i: int| 0 <= i < x.len() implies f[i] == x[i] by {
        if i < 25 {
            assert(f[i] == "export async function get"@[i]);
        }
    }
    lemma_starts_contains(f, x);
}

proof fn lemma_create_fn_starts(t: Seq<char>, s: Seq<char>)
    ensures
        seq_contains(create_fn_spec(t, s), export_fn_start("create"@ + s)),
{
    let f = create_fn_spec(t, s);
    let x = export_fn_start("create"@ + s);
    reveal_strlit("export async function create");
    reveal_strlit("export async function ");
    reveal_strlit("create");
    reveal_strlit("(");
    reveal_strlit("(\nbody: ");
    assert(x.len() <= f.len());
    assert forall|i: int| 0 <= i < x.len() implies f[i] == x[i] by {
        if i < 28 {
            assert(f[i] == "export async function create"@[i]);
        }
    }
    lemma_starts_contains(f, x);
}

proof fn lemma_update_fn_starts(t: Seq<char>, s: Seq<char>)
    ensures
        seq_contains(update_fn_spec(t, s), export_fn_start("update"@ + s)),
{
    let f = update_fn_spec(t, s);
    let x = export_fn_start("update"@ + s);
    reveal_strlit("export async function update");
    reveal_strlit("export async function ");
    reveal_strlit("update");
    reveal_strlit("(");
    reveal_strlit("(\nid: number,\npatch: ");
    assert(x.len() <= f.len());
    assert forall|i: int| 0 <= i < x.len() implies f[i] == x[i] by {
        if i < 28 {
            assert(f[i] == "export async function update"@[i]);
        }
    }
    lemma_starts_contains(f, x);
}

proof fn lemma_delete_fn_starts(t: Seq<char>, s: Seq<char>)
    ensures
        seq_contains(delete_fn_spec(t, s), export_fn_start("delete"@ + s)),
{
    let f = delete_fn_spec(t, s);
    let x = export_fn_start("delete"@ + s);
    reveal_strlit("export async function delete");
    reveal_strlit("export async function ");
    reveal_strlit("delete");
    reveal_strlit("(");
    reveal_strlit("(\nid: number,\n): ApiResult<{ id: number }> {\ntry {\nconst res = await fetch(`/api/");
    assert(x.len() <= f.len());
    assert forall|i: int| 0 <= i < x.len() implies f[i] == x[i] by {
        if i < 28 {
            assert(f[i] == "export async function delete"@[i]);
        }
    }
    lemma_starts_contains(f, x);
}

/// The name of the API function of a verb.
pub open spec fn api_fn_name(v: Verb, s: Seq<char>) -> Seq<char> {
    match v {
        Verb::List => api_list_name(s),
        Verb::Get => "get"@ + s,
        Verb::Create => "create"@ + s,
        Verb::Update => "update"@ + s,
        Verb::Delete => "delete"@ + s,
    }
}

/// The alias the composables module gives the API function of a verb.
pub open spec fn api_alias(v: Verb) -> Seq<char> {
    match v {
        Verb::List => "apiList"@,
        Verb::Get => "apiGet"@,
        Verb::Create => "apiCreate"@,
        Verb::Update => "apiUpdate"@,
        Verb::Delete => "apiDelete"@,
    }
}

proof fn lemma_section_exports(r: ResourceState, v: Verb)
    requires
        r.declares(v),
    ensures
        seq_contains(api_section_spec(r, v), export_fn_start(api_fn_name(v, type_stem_spec(r)))),
{
    let s = type_stem_spec(r);
    let t = r.name@;
    let x = export_fn_start(api_fn_name(v, s));
    let f = match v {
        Verb::List => list_fn_spec(t, s, api_list_name(s)),
        Verb::Get => get_fn_spec(t, s),
        Verb::Create => create_fn_spec(t, s),
        Verb::Update => update_fn_spec(t, s),
        Verb::Delete => delete_fn_spec(t, s),
    };
    match v {
        Verb::List => lemma_contains_middle(list_fn_head(s), x, list_fn_tail(t, s)),
        Verb::Get => lemma_get_fn_starts(t, s),
        Verb::Create => lemma_create_fn_starts(t, s),
        Verb::Update => lemma_update_fn_starts(t, s),
        Verb::Delete => lemma_delete_fn_starts(t, s),
    }
    lemma_contains_left(f, x, "\n"@);
}

#[verifier::spinoff_prover]
proof fn lemma_api_exports(r: ResourceState, v: Verb)
    requires
        r.declares(v),
    ensures
        seq_contains(resource_api_spec(r), export_fn_start(api_fn_name(v, type_stem_spec(r)))),
{
    let x = export_fn_start(api_fn_name(v, type_stem_spec(r)));
    lemma_section_exports(r, v);
    let h = api_head_spec(r);
    let sl = api_section_spec(r, Verb::List);
    let sg = api_section_spec(r, Verb::Get);
    let sc = api_section_spec(r, Verb::Create);
    let su = api_section_spec(r, Verb::Update);
    let sd = api_section_spec(r, Verb::Delete);
    match v {
        Verb::List => {
            lemma_contains_right(h, sl, x);
            lemma_contains_left(h + sl, x, sg);
            lemma_contains_left(h + sl + sg, x, sc);
            lemma_contains_left(h + sl + sg + sc, x, su);
            lemma_contains_left(h + sl + sg + sc + su, x, sd);
        },
        Verb::Get => {
            lemma_contains_right(h + sl, sg, x);
            lemma_contains_left(h + sl + sg, x, sc);
            lemma_contains_left(h + sl + sg + sc, x, su);
            lemma_contains_left(h + sl + sg + sc + su, x, sd);
        },
        Verb::Create => {
            lemma_contains_right(h + sl + sg, sc, x);
            lemma_contains_left(h + sl + sg + sc, x, su);
            lemma_contains_left(h + sl + sg + sc + su, x, sd);
        },
        Verb::Update => {
            lemma_contains_right(h + sl + sg + sc, su, x);
            lemma_contains_left(h + sl + sg + sc + su, x, sd);
        },
        Verb::Delete => {
            lemma_contains_right(h + sl + sg + sc + su, sd, x);
        },
    }
    let all = h + sl + sg + sc + su + sd;
    reveal_strlit("(");
    assert(x.last() == '(');
    lemma_contains_trimmed(all, x);
    lemma_contains_left(trim_end_newlines(all), x, "\n"@);
}

proof fn lemma_join_contains(parts: Seq<Seq<char>>, sep: Seq<char>, i: int)
    requires
        0 <= i < parts.len(),
    ensures
        seq_contains(join(parts, sep), parts[i]),
    decreases parts.len(),
{
    if parts.len() == 1 {
        lemma_starts_contains(join(parts, sep), parts[0]);
    } else if i == parts.len() - 1 {
        lemma_starts_contains(parts.last(), parts.last());
        lemma_contains_right(join(parts.drop_last(), sep) + sep, parts.last(), parts[i]);
    } else {
        lemma_join_contains(parts.drop_last(), sep, i);
        lemma_contains_left(join(parts.drop_last(), sep), parts[i], sep);
        lemma_contains_left(join(parts.drop_last(), sep) + sep, parts[i], parts.last());
    }
}

#[verifier::spinoff_prover]
proof fn lemma_import_entry(s: Seq<char>, l: bool, g: bool, c: bool, u: bool, d: bool, v: Verb)
    requires
        match v {
            Verb::List => l,
            Verb::Get => g,
            Verb::Create => c,
            Verb::Update => u,
            Verb::Delete => d,
        },
    ensures
        v2_api_names(s, l, g, c, u, d).contains(api_fn_name(v, s) + " as "@ + api_alias(v)),
{
    let y = api_fn_name(v, s) + " as "@ + api_alias(v);
    reveal_strlit("list");
    reveal_strlit("get");
    reveal_strlit("create");
    reveal_strlit("update");
    reveal_strlit("delete");
    reveal_strlit("s");
    reveal_strlit(" as ");
    reveal_strlit("apiList");
    reveal_strlit("apiGet");
    reveal_strlit("apiCreate");
    reveal_strlit("apiUpdate");
    reveal_strlit("apiDelete");
    reveal_strlit("s as apiList");
    reveal_strlit(" as apiGet");
    reveal_strlit(" as apiCreate");
    reveal_strlit(" as apiUpdate");
    reveal_strlit(" as apiDelete");
    let a = if l { seq!["list"@ + s + "s as apiList"@] } else { Seq::<Seq<char>>::empty() };
    let b = if g { seq!["get"@ + s + " as apiGet"@] } else { Seq::<Seq<char>>::empty() };
    let cc = if c { seq!["create"@ + s + " as apiCreate"@] } else { Seq::<Seq<char>>::empty() };
    let e = if u { seq!["update"@ + s + " as apiUpdate"@] } else { Seq::<Seq<char>>::empty() };
    let f = if d { seq!["delete"@ + s + " as apiDelete"@] } else { Seq::<Seq<char>>::empty() };
    let names = v2_api_names(s, l, g, c, u, d);
    assert(names == a + b + cc + e + f);
    let k: int = match v {
        Verb::List => 0,
        Verb::Get => a.len() as int,
        Verb::Create => (a.len() + b.len()) as int,
        Verb::Update => (a.len() + b.len() + cc.len()) as int,
        Verb::Delete => (a.len() + b.len() + cc.len() + e.len()) as int,
    };
    match v {
        Verb::List => assert(a[0] =~= y),
        Verb::Get => assert(b[0] =~= y),
        Verb::Create => assert(cc[0] =~= y),
        Verb::Update => assert(e[0] =~= y),
        Verb::Delete => assert(f[0] =~= y),
    }
    assert(names[k] == y);
}

#[verifier::spinoff_prover]
#[verifier::rlimit(40)]
proof fn lemma_line_contains(t: Seq<char>, s: Seq<char>, l: bool, g: bool, c: bool, u: bool, d: bool, v: Verb)
    requires
        match v {
            Verb::List => l,
            Verb::Get => g,
            Verb::Create => c,
            Verb::Update => u,
            Verb::Delete => d,
        },
    ensures
        seq_contains(v2_api_line(t, s, l, g, c, u, d), api_fn_name(v, s) + " as "@ + api_alias(v)),
{
    let y = api_fn_name(v, s) + " as "@ + api_alias(v);
    let names = v2_api_names(s, l, g, c, u, d);
    lemma_import_entry(s, l, g, c, u, d, v);
    let k = choose|k: int| 0 <= k < names.len() && names[k] == y;
    lemma_join_contains(names, ", "@, k);
    let j = join(names, ", "@);
    let line = v2_api_line(t, s, l, g, c, u, d);
    assert(l || g || c || u || d);
    assert(line == "import { "@ + j + " } from '@/generated/api/"@ + t + "'\n"@);
    lemma_contains_within(j, y, "import { "@, " } from '@/generated/api/"@ + t + "'\n"@);
    assert("import { "@ + j + (" } from '@/generated/api/"@ + t + "'\n"@) =~= line);
}

#[verifier::spinoff_prover]
proof fn lemma_ts_from_line(r: ResourceState, y: Seq<char>)
    requires
        seq_contains(
            v2_api_line(
                r.name@,
                type_stem_spec(r),
                r.declares(Verb::List),
                r.declares(Verb::Get),
                r.declares(Verb::Create),
                r.declares(Verb::Update),
                r.declares(Verb::Delete),
            ),
            y,
        ),
    ensures
        seq_contains(resource_ts_spec(r), y),
{
    let s = type_stem_spec(r);
    let t = r.name@;
    let l = r.declares(Verb::List);
    let c = r.declares(Verb::Create);
    let g = r.declares(Verb::Get);
    let u = r.declares(Verb::Update);
    let d = r.declares(Verb::Delete);
    let line = v2_api_line(t, s, l, g, c, u, d);
    let front = crate::codegen::composables_v2::render::v2_vue_line(l, g)
        + "import type { MeltDownResponse } from '@/generated/types/meltdown'\n"@
        + crate::codegen::composables_v2::render::v2_types_line(t, s, l, g, c, u);
    lemma_contains_right(front, line, y);
    lemma_contains_left(front + line, y, crate::codegen::composables_v2::render::v2_tail_lines(l, g));
    let imports = v2_imports_spec(t, s, l, g, c, u, d);
    assert(imports == front + line + crate::codegen::composables_v2::render::v2_tail_lines(l, g));
    let sec = |w: Verb| crate::codegen::composables_v2::render::v2_section_spec(r, w);
    lemma_contains_left(imports, y, "\n"@);
    lemma_contains_left(imports + "\n"@, y, sec(Verb::List));
    lemma_contains_left(imports + "\n"@ + sec(Verb::List), y, sec(Verb::Get));
    lemma_contains_left(imports + "\n"@ + sec(Verb::List) + sec(Verb::Get), y, sec(Verb::Create));
    lemma_contains_left(imports + "\n"@ + sec(Verb::List) + sec(Verb::Get) + sec(Verb::Create), y, sec(Verb::Update));
    lemma_contains_left(
        imports + "\n"@ + sec(Verb::List) + sec(Verb::Get) + sec(Verb::Create) + sec(Verb::Update),
        y,
        sec(Verb::Delete),
    );
}

proof fn lemma_ts_imports(r: ResourceState, v: Verb)
    requires
        r.declares(v),
    ensures
        seq_contains(resource_ts_spec(r), api_fn_name(v, type_stem_spec(r)) + " as "@ + api_alias(v)),
{
    lemma_line_contains(
        r.name@,
        type_stem_spec(r),
        r.declares(Verb::List),
        r.declares(Verb::Get),
        r.declares(Verb::Create),
        r.declares(Verb::Update),
        r.declares(Verb::Delete),
        v,
    );
    lemma_ts_from_line(r, api_fn_name(v, type_stem_spec(r)) + " as "@ + api_alias(v));
}

/// For every verb a resource declares, its API module exports exactly the
/// function its composables module imports: `list<Stem>s`, `get<Stem>`,
/// `create<Stem>`, `update<Stem>` and `delete<Stem>`, imported as `apiList`,
/// `apiGet`, `apiCreate`, `apiUpdate` and `apiDelete`.
pub proof fn lemma_exports_match_imports(r: ResourceState, v: Verb)
    requires
        r.declares(v),
    ensures
        seq_contains(resource_api_spec(r), export_fn_start(api_fn_name(v, type_stem_spec(r)))),
        seq_contains(resource_ts_spec(r), api_fn_name(v, type_stem_spec(r)) + " as "@ + api_alias(v)),
{
    lemma_api_exports(r, v);
    lemma_ts_imports(r, v);
}

} // verus!
