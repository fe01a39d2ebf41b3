//! Leptos data helpers.
use vstd::prelude::*;
use crate::codegen::flows::file_pairs;
use crate::codegen::leptos_data::render::{render_resource_helpers, render_top_data_barrel, resource_helpers_spec};
use crate::codegen::leptos_forms::render::{mod_line, str_views};
use crate::codegen::pipeline::{at_level, resources_at_level};
use crate::state::{GenLevel, ResourceState};
use crate::text::{concat_map, lex, owned};

verus! {

/// Files a generator run wrote and files it left unchanged.
pub struct EmitReport {
    pub written: Vec<String>,
    pub skipped: Vec<String>,
}

impl EmitReport {
    pub fn new() -> (r: Self)
        ensures
            r.written@.len() == 0,
            r.skipped@.len() == 0,
    {
        EmitReport { written: Vec::new(), skipped: Vec::new() }
    }
}


pub open spec fn helpers_file() -> spec_fn(ResourceState) -> (Seq<char>, Seq<char>) {
    |r: ResourceState| (r.name@ + ".rs"@, resource_helpers_spec(r))
}

/// The files of `transport/leptos/data/generated/`: for the resources
/// generated at least to composables, one helpers module each and the
/// `mod.rs` barrel (modules in name order); with none, a `.gitkeep` and a
/// barrel holding one newline.
pub open spec fn plan_spec(rs: Seq<ResourceState>) -> Seq<(Seq<char>, Seq<char>)> {
    let kept = at_level(rs, GenLevel::Composables);
    if kept.len() == 0 {
        seq![(".gitkeep"@, Seq::<char>::empty()), ("mod.rs"@, "\n"@)]
    } else {
        kept.map_values(helpers_file()) + seq![
            ("mod.rs"@, concat_map(kept.map_values(|r: ResourceState| r.name@).sort_by(lex()), mod_line())),
        ]
    }
}

/// The files the leptos data pass writes, bodies without markers.
pub fn plan_files(resources: Vec<ResourceState>) -> (r: Vec<(String, String)>)
    ensures
        file_pairs(r@) == plan_spec(resources@),
{
    let kept = resources_at_level(resources, GenLevel::Composables);
    let mut out: Vec<(String, String)> = Vec::new();
    if kept.len() == 0 {
        out.push((owned(".gitkeep"), String::new()));
        out.push((owned("mod.rs"), owned("\n")));
        assert(file_pairs(out@) =~= plan_spec(resources@));
        return out;
    }
    let ghost f = helpers_file();
    let mut tables: Vec<&str> = Vec::new();
    let mut i: usize = 0;
    while i < kept.len()
        invariant
            i <= kept.len(),
            f == helpers_file(),
            file_pairs(out@) == kept@.take(i as int).map_values(f),
            str_views(tables@) == kept@.take(i as int).map_values(|r: ResourceState| r.name@),
        decreases kept.len() - i,
    {
        let mut name = owned(kept[i].name.as_str());
        name.append(".rs");
        let body = render_resource_helpers(&kept[i]);
        let ghost before = file_pairs(out@);
        let ghost pv = (name@, body@);
        out.push((name, body));
        assert(file_pairs(out@) =~= before.push(pv));
        assert(kept@.take(i + 1).map_values(f) =~= kept@.take(i as int).map_values(f).push(f(kept@[i as int])));
        let ghost tb = str_views(tables@);
        tables.push(kept[i].name.as_str());
        assert(str_views(tables@) =~= tb.push(kept@[i as int].name@));
        assert(kept@.take(i + 1).map_values(|r: ResourceState| r.name@) =~= kept@.take(i as int).map_values(
            |r: ResourceState| r.name@,
        ).push(kept@[i as int].name@));
        i = i + 1;
    }
    assert(kept@.take(i as int) =~= kept@);
    let barrel = render_top_data_barrel(tables.as_slice());
    let ghost before = file_pairs(out@);
    let ghost bv = barrel@;
    out.push((owned("mod.rs"), barrel));
    assert(file_pairs(out@) =~= before.push(("mod.rs"@, bv)));
    out
}

} // verus!
