//! The composables barrel re-exporting every resource's composables.
use vstd::prelude::*;
use vstd::string::*;
use crate::codegen::composables::render::{plural_of_pascal, plural_spec};
use crate::codegen::composables::render::{build_resource_composables, composables_spec};
use crate::codegen::flows::file_pairs;
use crate::codegen::pipeline::{at_level, resources_at_level, sort_by_name, sort_resources_by_name};
use crate::state::GenLevel;
use crate::codegen::structs_naming::{type_stem_for_resource, type_stem_spec};
use crate::state::{ResourceState, Verb};
use crate::text::{concat_map, join, join_strings, lemma_concat_map_all, lemma_concat_map_step, owned, views};

verus! {

/// Files a generator run wrote and files it left unchanged.
pub struct EmitReport {
    pub written: Vec<String>,
    pub skipped: Vec<String>,
}

impl EmitReport {
    pub fn new() -> (r: Self)
        ensures
            r.written@.len() == 0,
            r.skipped@.len() == 0,
    {
        EmitReport { written: Vec::new(), skipped: Vec::new() }
    }
}

/// The composable names a resource exports.
pub open spec fn exported_symbols(r: ResourceState) -> Seq<Seq<char>> {
    let s = type_stem_spec(r);
    (if r.declares(Verb::List) { seq!["use"@ + plural_spec(s, r.name@) + "List"@] } else { seq![] }) + (if r.declares(
        Verb::Get,
    ) {
        seq!["use"@ + s]
    } else {
        seq![]
    }) + (if r.declares(Verb::Create) { seq!["useCreate"@ + s] } else { seq![] }) + (if r.declares(Verb::Update) {
        seq!["useUpdate"@ + s]
    } else {
        seq![]
    }) + (if r.declares(Verb::Delete) { seq!["useDelete"@ + s] } else { seq![] })
}

pub open spec fn export_line() -> spec_fn(ResourceState) -> Seq<char> {
    |r: ResourceState| if exported_symbols(r).len() == 0 {
        Seq::<char>::empty()
    } else {
        "export { "@ + join(exported_symbols(r), ", "@) + " } from './"@ + r.name@ + "'\n"@
    }
}

/// `index.ts`: one export line per resource with composables, in table
/// order; `export {}` when there is none.
pub open spec fn index_barrel_spec(rs: Seq<ResourceState>) -> Seq<char> {
    let body = concat_map(sort_by_name(rs), export_line());
    if body.len() == 0 {
        "export {}\n"@
    } else {
        body
    }
}

fn push_symbol(v: &mut Vec<String>, a: &str, b: &str, c: &str)
    ensures
        views(final(v)@) == views(old(v)@).push(a@ + b@ + c@),
{
    let mut n = owned(a);
    n.append(b);
    n.append(c);
    let ghost before = views(v@);
    let ghost nv = n@;
    v.push(n);
    assert(views(v@) =~= before.push(nv));
}

fn render_export_line(r: &ResourceState) -> (out: String)
    ensures
        out@ == export_line()(*r),
{
    let table = r.name.as_str();
    let singular = type_stem_for_resource(r);
    let s = singular.as_str();
    let mut symbols: Vec<String> = Vec::new();
    if r.has_verb(Verb::List) {
        let plural = plural_of_pascal(s, table);
        push_symbol(&mut symbols, "use", plural.as_str(), "List");
    }
    if r.has_verb(Verb::Get) {
        push_symbol(&mut symbols, "use", s, "");
    }
    if r.has_verb(Verb::Create) {
        push_symbol(&mut symbols, "useCreate", s, "");
    }
    if r.has_verb(Verb::Update) {
        push_symbol(&mut symbols, "useUpdate", s, "");
    }
    if r.has_verb(Verb::Delete) {
        push_symbol(&mut symbols, "useDelete", s, "");
    }
    proof {
        reveal_strlit("");
    }
    assert(views(symbols@) =~= exported_symbols(*r));
    if symbols.len() == 0 {
        return String::new();
    }
    let j = join_strings(&symbols, ", ");
    let mut out = owned("export { ");
    out.append(j.as_str());
    out.append(" } from './");
    out.append(table);
    out.append("'\n");
    out
}

/// `generated/composables/index.ts`.
pub fn build_index_barrel(resources: Vec<ResourceState>) -> (out: String)
    ensures
        out@ == index_barrel_spec(resources@),
{
    let sorted = sort_resources_by_name(resources);
    let mut out = String::new();
    let mut i: usize = 0;
    assert(sorted@.take(0) =~= Seq::<ResourceState>::empty());
    while i < sorted.len()
        invariant
            i <= sorted@.len(),
            out@ == concat_map(sorted@.take(i as int), export_line()),
        decreases sorted@.len() - i,
    {
        let line = render_export_line(&sorted[i]);
        out.append(line.as_str());
        proof {
            lemma_concat_map_step(sorted@, i as int, export_line());
        }
        i = i + 1;
    }
    proof {
        lemma_concat_map_all(sorted@, export_line());
    }
    if out.as_str().unicode_len() == 0 {
        out.append("export {}\n");
        proof {
            assert(out@ =~= "export {}\n"@);
        }
    }
    out
}


/// One composables module per resource.
pub open spec fn composables_file() -> spec_fn(ResourceState) -> (Seq<char>, Seq<char>) {
    |r: ResourceState| (r.name@ + ".ts"@, composables_spec(r))
}

/// The files of `generated/composables/` (names relative to it): for the
/// resources generated at least to composables, one module each and the
/// `index.ts` barrel; a lone `.gitkeep` when there are none.
pub open spec fn plan_spec(rs: Seq<ResourceState>) -> Seq<(Seq<char>, Seq<char>)> {
    let kept = at_level(rs, GenLevel::Composables);
    if kept.len() == 0 {
        seq![(".gitkeep"@, Seq::<char>::empty())]
    } else {
        kept.map_values(composables_file()) + seq![("index.ts"@, index_barrel_spec(kept))]
    }
}

/// The files the composables pass writes, bodies without markers.
pub fn plan_files(resources: Vec<ResourceState>) -> (r: Vec<(String, String)>)
    ensures
        file_pairs(r@) == plan_spec(resources@),
{
    let kept = resources_at_level(resources, GenLevel::Composables);
    let mut out: Vec<(String, String)> = Vec::new();
    if kept.len() == 0 {
        out.push((owned(".gitkeep"), String::new()));
        assert(file_pairs(out@) =~= plan_spec(resources@));
        return out;
    }
    let ghost f = composables_file();
    let mut i: usize = 0;
    while i < kept.len()
        invariant
            i <= kept.len(),
            f == composables_file(),
            file_pairs(out@) == kept@.take(i as int).map_values(f),
        decreases kept.len() - i,
    {
        let mut name = owned(kept[i].name.as_str());
        name.append(".ts");
        let body = build_resource_composables(&kept[i]);
        let ghost before = file_pairs(out@);
        let ghost pv = (name@, body@);
        out.push((name, body));
        assert(file_pairs(out@) =~= before.push(pv));
        assert(kept@.take(i + 1).map_values(f) =~= kept@.take(i as int).map_values(f).push(f(kept@[i as int])));
        i = i + 1;
    }
    assert(kept@.take(i as int) =~= kept@);
    let ghost kv = kept@;
    let barrel = build_index_barrel(kept);
    let ghost before = file_pairs(out@);
    let ghost bv = barrel@;
    out.push((owned("index.ts"), barrel));
    assert(file_pairs(out@) =~= before.push(("index.ts"@, bv)));
    out
}

} // verus!
