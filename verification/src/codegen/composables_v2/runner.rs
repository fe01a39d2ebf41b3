//! Composables (second generation).
use vstd::prelude::*;
use crate::codegen::composables_v2::render::{build_resource_ts, resource_ts_spec};
use crate::codegen::flows::file_pairs;
use crate::codegen::frontend::export_star;
use crate::state::ResourceState;
use crate::text::{concat_map, lemma_concat_map_all, lemma_concat_map_step, lex, owned, sort_strings, views};

verus! {

/// Files a generator run wrote and files it left unchanged.
pub struct EmitReport {
    pub written: Vec<String>,
    pub skipped: Vec<String>,
}

impl EmitReport {
    pub fn new() -> (r: Self)
        ensures
            r.written@.len() == 0,
            r.skipped@.len() == 0,
    {
        EmitReport { written: Vec::new(), skipped: Vec::new() }
    }
}


/// The resources that declare at least one verb, in order.
pub open spec fn with_verbs(rs: Seq<ResourceState>) -> Seq<ResourceState>
    decreases rs.len(),
{
    if rs.len() == 0 {
        seq![]
    } else if rs.last().verbs@.len() == 0 {
        with_verbs(rs.drop_last())
    } else {
        with_verbs(rs.drop_last()).push(rs.last())
    }
}

pub open spec fn module_file() -> spec_fn(ResourceState) -> (Seq<char>, Seq<char>) {
    |r: ResourceState| (r.name@ + ".ts"@, resource_ts_spec(r))
}

/// The files of `generated/composables/`: a module per resource with verbs,
/// then `index.ts` re-exporting them in name order.
pub open spec fn plan_spec(rs: Seq<ResourceState>) -> Seq<(Seq<char>, Seq<char>)> {
    let kept = with_verbs(rs);
    kept.map_values(module_file()) + seq![
        ("index.ts"@, concat_map(kept.map_values(|r: ResourceState| r.name@).sort_by(lex()), export_star(Seq::<char>::empty()))),
    ]
}

/// The files the composables pass writes, bodies without markers.
pub fn plan_files(resources: &Vec<ResourceState>) -> (r: Vec<(String, String)>)
    ensures
        file_pairs(r@) == plan_spec(resources@),
{
    let ghost f = module_file();
    let mut out: Vec<(String, String)> = Vec::new();
    let mut names: Vec<String> = Vec::new();
    let mut i: usize = 0;
    assert(resources@.take(0) =~= Seq::<ResourceState>::empty());
    while i < resources.len()
        invariant
            i <= resources.len(),
            f == module_file(),
            file_pairs(out@) == with_verbs(resources@.take(i as int)).map_values(f),
            views(names@) == with_verbs(resources@.take(i as int)).map_values(|r: ResourceState| r.name@),
        decreases resources.len() - i,
    {
        let ghost t = resources@.take(i + 1);
        assert(t.drop_last() =~= resources@.take(i as int));
        assert(t.last() == resources@[i as int]);
        let r = &resources[i];
        if r.verbs.len() > 0 {
            let ghost kept = with_verbs(resources@.take(i as int));
            let mut name = owned(r.name.as_str());
            name.append(".ts");
            let body = build_resource_ts(r);
            let ghost before = file_pairs(out@);
            let ghost pv = (name@, body@);
            out.push((name, body));
            assert(file_pairs(out@) =~= before.push(pv));
            assert(kept.push(*r).map_values(f) =~= kept.map_values(f).push(f(*r)));
            let ghost nb = views(names@);
            names.push(owned(r.name.as_str()));
            assert(views(names@) =~= nb.push(r.name@));
            assert(kept.push(*r).map_values(|r: ResourceState| r.name@) =~= kept.map_values(|r: ResourceState| r.name@).push(r.name@));
        }
        i = i + 1;
    }
    assert(resources@.take(i as int) =~= resources@);
    let sorted = sort_strings(names);
    let ghost g = export_star(Seq::<char>::empty());
    let mut barrel = String::new();
    let mut k: usize = 0;
    proof {
        reveal_strlit("");
        assert(views(sorted@).take(0) =~= Seq::<Seq<char>>::empty());
    }
    while k < sorted.len()
        invariant
            k <= sorted.len(),
            g == export_star(Seq::<char>::empty()),
            barrel@ == concat_map(views(sorted@).take(k as int), g),
        decreases sorted.len() - k,
    {
        barrel.append("export * from './");
        barrel.append(sorted[k].as_str());
        barrel.append("'\n");
        proof {
            lemma_concat_map_step(views(sorted@), k as int, g);
            assert(sorted@[k as int]@ + Seq::<char>::empty() =~= sorted@[k as int]@);
        }
        k = k + 1;
    }
    proof {
        lemma_concat_map_all(views(sorted@), g);
    }
    let ghost before = file_pairs(out@);
    let ghost bv = barrel@;
    out.push((owned("index.ts"), barrel));
    assert(file_pairs(out@) =~= before.push(("index.ts"@, bv)));
    out
}

} // verus!
