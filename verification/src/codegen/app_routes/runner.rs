//! The Leptos route table of every resource page.
use vstd::prelude::*;
use vstd::string::*;
use crate::codegen::structs_naming::{type_stem_for_resource, type_stem_spec};
use crate::state::{verb_lookup, GenLevel, ResourceState, Verb};
use crate::codegen::flows::file_pairs;
use crate::codegen::pipeline::{at_level, resources_at_level, sort_by_name, sort_resources_by_name};
use crate::text::{concat_map, lemma_concat_map_all, lemma_concat_map_step, owned, sort_dedup_strings, sorted_distinct, views};

verus! {

/// Files a generator run wrote and files it left unchanged.
pub struct EmitReport {
    pub written: Vec<String>,
    pub skipped: Vec<String>,
}

impl EmitReport {
    pub fn new() -> (r: Self)
        ensures
            r.written@.len() == 0,
            r.skipped@.len() == 0,
    {
        EmitReport { written: Vec::new(), skipped: Vec::new() }
    }
}

/// One page route: the resource, the page module, its component and path.
pub struct RouteEntry {
    pub table: String,
    pub page_module: String,
    pub component: String,
    pub path_lit: String,
}

pub type RouteView = (Seq<char>, Seq<char>, Seq<char>, Seq<char>);

pub open spec fn route_view(e: RouteEntry) -> RouteView {
    (e.table@, e.page_module@, e.component@, e.path_lit@)
}

pub open spec fn route_views(s: Seq<RouteEntry>) -> Seq<RouteView> {
    s.map_values(|e: RouteEntry| route_view(e))
}

/// The page route of one verb, when the verb is declared with a page.
pub open spec fn page_route(r: ResourceState, v: Verb, module: Seq<char>, suffix: Seq<char>, path: Seq<char>) -> Seq<RouteView> {
    match verb_lookup(r.verbs@, v) {
        Some(st) => if st.emit_html_page {
            seq![(r.name@, module, type_stem_spec(r) + suffix, path)]
        } else {
            seq![]
        },
        None => seq![],
    }
}

/// List, detail, create and edit routes of one resource, in that order.
pub open spec fn resource_routes(r: ResourceState) -> Seq<RouteView> {
    let t = r.name@;
    page_route(r, Verb::List, "list"@, "ListPage"@, "/"@ + t) + page_route(
        r,
        Verb::Get,
        "detail"@,
        "DetailPage"@,
        "/"@ + t + "/:id"@,
    ) + page_route(r, Verb::Create, "create"@, "CreatePage"@, "/"@ + t + "/new"@) + page_route(
        r,
        Verb::Update,
        "edit"@,
        "EditPage"@,
        "/"@ + t + "/:id/edit"@,
    )
}

pub open spec fn route_entries_spec(rs: Seq<ResourceState>) -> Seq<RouteView>
    decreases rs.len(),
{
    if rs.len() == 0 {
        seq![]
    } else {
        route_entries_spec(rs.drop_last()) + resource_routes(rs.last())
    }
}

fn cat2(a: &str, b: &str) -> (r: String)
    ensures
        r@ == a@ + b@,
{
    let mut s = owned(a);
    s.append(b);
    s
}

fn push_page_route(
    out: &mut Vec<RouteEntry>,
    r: &ResourceState,
    stem: &str,
    v: Verb,
    module: &str,
    suffix: &str,
    path: String,
)
    requires
        stem@ == type_stem_spec(*r),
    ensures
        route_views(final(out)@) == route_views(old(out)@) + page_route(*r, v, module@, suffix@, path@),
{
    let ghost before = route_views(out@);
    match r.verb_state(v) {
        Some(st) => {
            if st.emit_html_page {
                let e = RouteEntry {
                    table: owned(r.name.as_str()),
                    page_module: owned(module),
                    component: cat2(stem, suffix),
                    path_lit: path,
                };
                let ghost ev = route_view(e);
                out.push(e);
                assert(route_views(out@) =~= before.push(ev));
                return;
            }
        },
        None => {},
    }
    assert(route_views(out@) =~= before + Seq::<RouteView>::empty());
}

/// Page routes of every resource, resource by resource.
pub fn collect_route_entries(resources: &[ResourceState]) -> (r: Vec<RouteEntry>)
    ensures
        route_views(r@) == route_entries_spec(resources@),
{
    let mut out: Vec<RouteEntry> = Vec::new();
    let mut i: usize = 0;
    assert(route_views(out@) =~= Seq::<RouteView>::empty());
    assert(resources@.take(0) =~= Seq::<ResourceState>::empty());
    while i < resources.len()
        invariant
            i <= resources@.len(),
            route_views(out@) == route_entries_spec(resources@.take(i as int)),
        decreases resources@.len() - i,
    {
        let r = &resources[i];
        let t = r.name.as_str();
        let stem = type_stem_for_resource(r);
        let ghost o0 = route_views(out@);
        push_page_route(&mut out, r, stem.as_str(), Verb::List, "list", "ListPage", cat2("/", t));
        let mut p = cat2("/", t);
        p.append("/:id");
        push_page_route(&mut out, r, stem.as_str(), Verb::Get, "detail", "DetailPage", p);
        let mut p = cat2("/", t);
        p.append("/new");
        push_page_route(&mut out, r, stem.as_str(), Verb::Create, "create", "CreatePage", p);
        let mut p = cat2("/", t);
        p.append("/:id/edit");
        push_page_route(&mut out, r, stem.as_str(), Verb::Update, "edit", "EditPage", p);
        assert(route_views(out@) =~= o0 + resource_routes(*r));
        assert(resources@.take(i + 1).drop_last() =~= resources@.take(i as int));
        i = i + 1;
    }
    assert(resources@.take(resources@.len() as int) =~= resources@);
    out
}

pub const ROUTES_PRELUDE: &'static str = "use ::leptos::prelude::*;\n";

pub const ROUTES_FN_HEAD: &'static str = "#[component(transparent)]\npub fn GeneratedRoutes() -> impl ::leptos_router::MatchNestedRoutes + ::core::clone::Clone + ::core::marker::Send + 'static {\n";

pub open spec fn import_line(e: RouteView) -> Seq<char> {
    "use crate::transport::leptos::pages::generated::"@ + e.0 + "::"@ + e.1 + "::"@ + e.2 + ";\n"@
}

pub open spec fn route_line() -> spec_fn(RouteView) -> Seq<char> {
    |e: RouteView| "        <Route path=path!(\""@ + e.3 + "\") view="@ + e.2 + "/>\n"@
}

pub open spec fn id_line() -> spec_fn(Seq<char>) -> Seq<char> {
    |s: Seq<char>| s
}

/// The route table module: a unit route set without entries, else the page
/// imports (sorted, each once) and one `<Route>` per entry in order.
pub open spec fn routes_file_spec(entries: Seq<RouteView>) -> Seq<char> {
    if entries.len() == 0 {
        ROUTES_PRELUDE@ + "\n"@ + ROUTES_FN_HEAD@ + "    ()\n}\n"@
    } else {
        ROUTES_PRELUDE@ + "use ::leptos_router::components::Route;\nuse ::leptos_router::path;\n\n"@ + concat_map(
            sorted_distinct(entries.map_values(|e: RouteView| import_line(e))),
            id_line(),
        ) + "\n"@ + ROUTES_FN_HEAD@ + "    view! {\n"@ + concat_map(entries, route_line()) + "    }\n}\n"@
    }
}

fn import_lines(entries: &[RouteEntry]) -> (r: String)
    ensures
        r@ == concat_map(sorted_distinct(route_views(entries@).map_values(|e: RouteView| import_line(e))), id_line()),
{
    let ghost vs = route_views(entries@);
    let mut imports: Vec<String> = Vec::new();
    let mut i: usize = 0;
    while i < entries.len()
        invariant
            i <= entries@.len(),
            vs == route_views(entries@),
            views(imports@) == vs.take(i as int).map_values(|e: RouteView| import_line(e)),
        decreases entries@.len() - i,
    {
        let e = &entries[i];
        let mut s = owned("use crate::transport::leptos::pages::generated::");
        s.append(e.table.as_str());
        s.append("::");
        s.append(e.page_module.as_str());
        s.append("::");
        s.append(e.component.as_str());
        s.append(";\n");
        let ghost before = views(imports@);
        let ghost sv = s@;
        imports.push(s);
        assert(views(imports@) =~= before.push(sv));
        assert(vs.take(i + 1).map_values(|e: RouteView| import_line(e)) =~= vs.take(i as int).map_values(
            |e: RouteView| import_line(e),
        ).push(import_line(vs[i as int])));
        i = i + 1;
    }
    assert(vs.take(entries@.len() as int) =~= vs);
    let sorted = sort_dedup_strings(imports);
    let ghost ss = views(sorted@);
    let mut out = String::new();
    let mut k: usize = 0;
    assert(ss.take(0) =~= Seq::<Seq<char>>::empty());
    while k < sorted.len()
        invariant
            k <= sorted@.len(),
            ss == views(sorted@),
            out@ == concat_map(ss.take(k as int), id_line()),
        decreases sorted@.len() - k,
    {
        out.append(sorted[k].as_str());
        proof {
            lemma_concat_map_step(ss, k as int, id_line());
            assert(ss[k as int] == sorted@[k as int]@);
        }
        k = k + 1;
    }
    proof {
        lemma_concat_map_all(ss, id_line());
    }
    out
}

fn route_lines(entries: &[RouteEntry]) -> (r: String)
    ensures
        r@ == concat_map(route_views(entries@), route_line()),
{
    let ghost vs = route_views(entries@);
    let mut out = String::new();
    let mut i: usize = 0;
    assert(vs.take(0) =~= Seq::<RouteView>::empty());
    while i < entries.len()
        invariant
            i <= entries@.len(),
            vs == route_views(entries@),
            out@ == concat_map(vs.take(i as int), route_line()),
        decreases entries@.len() - i,
    {
        out.append("        <Route path=path!(\"");
        out.append(entries[i].path_lit.as_str());
        out.append("\") view=");
        out.append(entries[i].component.as_str());
        out.append("/>\n");
        proof {
            lemma_concat_map_step(vs, i as int, route_line());
        }
        i = i + 1;
    }
    proof {
        lemma_concat_map_all(vs, route_line());
    }
    out
}

/// `routes/generated/table.rs` (without the generated marker).
pub fn render_routes_file(entries: &[RouteEntry]) -> (r: String)
    ensures
        r@ == routes_file_spec(route_views(entries@)),
{
    let mut out = owned(ROUTES_PRELUDE);
    if entries.len() == 0 {
        out.append("\n");
        out.append(ROUTES_FN_HEAD);
        out.append("    ()\n}\n");
        return out;
    }
    out.append("use ::leptos_router::components::Route;\nuse ::leptos_router::path;\n\n");
    let imports = import_lines(entries);
    out.append(imports.as_str());
    out.append("\n");
    out.append(ROUTES_FN_HEAD);
    out.append("    view! {\n");
    let routes = route_lines(entries);
    out.append(routes.as_str());
    out.append("    }\n}\n");
    out
}


pub const ROUTES_BARREL: &'static str = "pub mod table;\n\npub use table::GeneratedRoutes;\n";

/// The files of `transport/leptos/routes/generated/`: the route table over
/// the resources generated to pages, in table order, and its barrel.
pub open spec fn plan_spec(rs: Seq<ResourceState>) -> Seq<(Seq<char>, Seq<char>)> {
    seq![
        ("table.rs"@, routes_file_spec(route_entries_spec(sort_by_name(at_level(rs, GenLevel::Pages))))),
        ("mod.rs"@, ROUTES_BARREL@),
    ]
}

/// The files the app routes pass writes, bodies without markers.
pub fn plan_files(resources: Vec<ResourceState>) -> (r: Vec<(String, String)>)
    ensures
        file_pairs(r@) == plan_spec(resources@),
{
    let kept = sort_resources_by_name(resources_at_level(resources, GenLevel::Pages));
    let entries = collect_route_entries(kept.as_slice());
    let table = render_routes_file(entries.as_slice());
    let mut out: Vec<(String, String)> = Vec::new();
    out.push((owned("table.rs"), table));
    out.push((owned("mod.rs"), owned(ROUTES_BARREL)));
    assert(file_pairs(out@) =~= plan_spec(resources@));
    out
}

} // verus!
