//! Per-resource TypeScript types.
use vstd::prelude::*;
use crate::codegen::enums::scan::ParsedEnum;
use crate::codegen::flows::file_pairs;
use crate::codegen::frontend_types::render::{
    build_enum_module, build_resource_types, collect_resource_enums, enum_module_spec, meltdown_ts, pair_views,
    resource_enums_spec, resource_types_body, MELTDOWN_TS,
};
use crate::codegen::pipeline::{at_level, resources_at_level};
use crate::state::{GenLevel, ResourceState};
use crate::text::{contains_str, owned, trim_end_newlines, views};

verus! {

/// Files a generator run wrote and files it left unchanged.
pub struct EmitReport {
    pub written: Vec<String>,
    pub skipped: Vec<String>,
}

impl EmitReport {
    pub fn new() -> (r: Self)
        ensures
            r.written@.len() == 0,
            r.skipped@.len() == 0,
    {
        EmitReport { written: Vec::new(), skipped: Vec::new() }
    }
}


/// The body `build_resource_types` gives a resource.
pub open spec fn types_file_body(r: ResourceState, enums: Seq<ParsedEnum>) -> Seq<char> {
    trim_end_newlines(resource_types_body(r, enums)) + seq!['\n']
}

/// Enum modules for the referenced enums not emitted yet, in reference
/// order, and the emitted names afterwards.
pub open spec fn enum_files(refs: Seq<(Seq<char>, Seq<Seq<char>>)>, emitted: Seq<Seq<char>>) -> (
    Seq<(Seq<char>, Seq<char>)>,
    Seq<Seq<char>>,
)
    decreases refs.len(),
{
    if refs.len() == 0 {
        (seq![], emitted)
    } else {
        let prev = enum_files(refs.drop_last(), emitted);
        let x = refs.last();
        if prev.1.contains(x.0) {
            prev
        } else {
            (prev.0.push((x.0 + ".ts"@, enum_module_spec(x.0, x.1))), prev.1.push(x.0))
        }
    }
}

/// For each resource in order: the modules of its enums not emitted by an
/// earlier resource, then its own types module.
pub open spec fn types_files_from(rs: Seq<ResourceState>, enums: Seq<ParsedEnum>) -> (
    Seq<(Seq<char>, Seq<char>)>,
    Seq<Seq<char>>,
)
    decreases rs.len(),
{
    if rs.len() == 0 {
        (seq![], seq![])
    } else {
        let prev = types_files_from(rs.drop_last(), enums);
        let r = rs.last();
        let ef = enum_files(resource_enums_spec(r.fields@, enums), prev.1);
        (prev.0 + ef.0 + seq![(r.name@ + ".ts"@, types_file_body(r, enums))], ef.1)
    }
}

/// The files of `generated/types/`: `meltdown.ts` always; then, for the
/// resources generated at least to types, their enum and type modules, or a
/// `.gitkeep` when there are none.
pub open spec fn plan_spec(rs: Seq<ResourceState>, enums: Seq<ParsedEnum>) -> Seq<(Seq<char>, Seq<char>)> {
    let kept = at_level(rs, GenLevel::Types);
    seq![("meltdown.ts"@, MELTDOWN_TS@)] + if kept.len() == 0 {
        seq![(".gitkeep"@, Seq::<char>::empty())]
    } else {
        types_files_from(kept, enums).0
    }
}

fn push_enum_files(refs: &Vec<(String, Vec<String>)>, emitted: &mut Vec<String>, out: &mut Vec<(String, String)>)
    ensures
        file_pairs(final(out)@) == file_pairs(old(out)@) + enum_files(pair_views(refs@), views(old(emitted)@)).0,
        views(final(emitted)@) == enum_files(pair_views(refs@), views(old(emitted)@)).1,
{
    let ghost base = file_pairs(out@);
    let ghost e0 = views(emitted@);
    let ghost pv = pair_views(refs@);
    let mut i: usize = 0;
    assert(pv.take(0) =~= Seq::<(Seq<char>, Seq<Seq<char>>)>::empty());
    assert(file_pairs(out@) =~= base + enum_files(pv.take(0), e0).0);
    while i < refs.len()
        invariant
            i <= refs.len(),
            pv == pair_views(refs@),
            file_pairs(out@) == base + enum_files(pv.take(i as int), e0).0,
            views(emitted@) == enum_files(pv.take(i as int), e0).1,
        decreases refs.len() - i,
    {
        let ghost t = pv.take(i + 1);
        assert(t.drop_last() =~= pv.take(i as int));
        assert(t.last() == pv[i as int]);
        let name = refs[i].0.as_str();
        if !contains_str(emitted, name) {
            let mut file = owned(name);
            file.append(".ts");
            let body = build_enum_module(name, &refs[i].1);
            let ghost before = file_pairs(out@);
            let ghost fv = (file@, body@);
            out.push((file, body));
            assert(file_pairs(out@) =~= before.push(fv));
            let ghost eb = views(emitted@);
            emitted.push(owned(name));
            assert(views(emitted@) =~= eb.push(name@));
        }
        i = i + 1;
    }
    assert(pv.take(i as int) =~= pv);
}

/// The files the types pass writes, bodies without markers.
pub fn plan_files(resources: Vec<ResourceState>, enums: &[ParsedEnum]) -> (r: Vec<(String, String)>)
    ensures
        file_pairs(r@) == plan_spec(resources@, enums@),
{
    let mut out: Vec<(String, String)> = Vec::new();
    out.push((owned("meltdown.ts"), owned(meltdown_ts())));
    let ghost head = file_pairs(out@);
    assert(head =~= seq![("meltdown.ts"@, MELTDOWN_TS@)]);
    let kept = resources_at_level(resources, GenLevel::Types);
    if kept.len() == 0 {
        out.push((owned(".gitkeep"), String::new()));
        assert(file_pairs(out@) =~= plan_spec(resources@, enums@));
        return out;
    }
    let mut emitted: Vec<String> = Vec::new();
    let mut i: usize = 0;
    assert(kept@.take(0) =~= Seq::<ResourceState>::empty());
    assert(views(emitted@) =~= Seq::<Seq<char>>::empty());
    assert(file_pairs(out@) =~= head + types_files_from(kept@.take(0), enums@).0);
    while i < kept.len()
        invariant
            i <= kept.len(),
            file_pairs(out@) == head + types_files_from(kept@.take(i as int), enums@).0,
            views(emitted@) == types_files_from(kept@.take(i as int), enums@).1,
        decreases kept.len() - i,
    {
        let ghost t = kept@.take(i + 1);
        assert(t.drop_last() =~= kept@.take(i as int));
        assert(t.last() == kept@[i as int]);
        let r = &kept[i];
        let refs = collect_resource_enums(r, enums);
        push_enum_files(&refs, &mut emitted, &mut out);
        let mut file = owned(r.name.as_str());
        file.append(".ts");
        let body = build_resource_types(r, enums);
        let ghost before = file_pairs(out@);
        let ghost fv = (file@, body@);
        out.push((file, body));
        assert(file_pairs(out@) =~= before.push(fv));
        i = i + 1;
    }
    assert(kept@.take(i as int) =~= kept@);
    out
}

} // verus!
