//! Which enums get a generated module, and the barrel that re-exports them.
use vstd::prelude::*;
use vstd::string::*;
use crate::codegen::enums::meta::EnumMeta;
use crate::codegen::enums::render::{enum_body_spec, enum_file_spec, enum_type_name, render_enum_file};
use crate::codegen::flows::file_pairs;
use crate::codegen::enums::scan::{ParsedEnum, ScanReport};
use crate::codegen::naming::pascalize_spec;
use crate::text::{concat_map, lemma_concat_map_all, lemma_concat_map_step, lex, owned, seq_le, sort_strings, str_eq, str_le, views};

verus! {

/// Files a generator run wrote and files it left unchanged.
pub struct EmitReport {
    pub written: Vec<String>,
    pub skipped: Vec<String>,
}

impl EmitReport {
    pub fn new() -> (r: Self)
        ensures
            r.written@.len() == 0,
            r.skipped@.len() == 0,
    {
        EmitReport { written: Vec::new(), skipped: Vec::new() }
    }
}

/// (name, variants, source file) of a parsed enum.
pub type EnumView = (Seq<char>, Seq<Seq<char>>, Seq<char>);

pub open spec fn ev(p: ParsedEnum) -> EnumView {
    (p.name@, views(p.variants@), p.source_file@)
}

pub open spec fn evs(s: Seq<ParsedEnum>) -> Seq<EnumView> {
    s.map_values(|p: ParsedEnum| ev(p))
}

fn clone_enum(p: &ParsedEnum) -> (r: ParsedEnum)
    ensures
        ev(r) == ev(*p),
{
    ParsedEnum {
        name: owned(p.name.as_str()),
        variants: crate::text::clone_strings(&p.variants),
        source_file: owned(p.source_file.as_str()),
    }
}

/// Some element of `s` has the name `n`.
pub open spec fn has_name(s: Seq<EnumView>, n: Seq<char>) -> bool {
    exists|i: int| 0 <= i < s.len() && (#[trigger] s[i]).0 == n
}

/// The first declaration of each name, in order.
pub open spec fn firsts(s: Seq<EnumView>) -> Seq<EnumView>
    decreases s.len(),
{
    if s.len() == 0 {
        seq![]
    } else if has_name(s.drop_last(), s.last().0) {
        firsts(s.drop_last())
    } else {
        firsts(s.drop_last()).push(s.last())
    }
}

/// Names of the later declarations of an already-declared name, in order.
pub open spec fn dup_names(s: Seq<EnumView>) -> Seq<Seq<char>>
    decreases s.len(),
{
    if s.len() == 0 {
        seq![]
    } else if has_name(s.drop_last(), s.last().0) {
        dup_names(s.drop_last()).push(s.last().0)
    } else {
        dup_names(s.drop_last())
    }
}

proof fn lemma_firsts_names(s: Seq<EnumView>, n: Seq<char>)
    ensures
        has_name(firsts(s), n) <==> has_name(s, n),
    decreases s.len(),
{
    if s.len() > 0 {
        let d = s.drop_last();
        lemma_firsts_names(d, n);
        lemma_firsts_names(d, s.last().0);
        if has_name(s, n) {
            let i = choose|i: int| 0 <= i < s.len() && (#[trigger] s[i]).0 == n;
            if i < d.len() {
                assert(d[i].0 == n);
            }
        }
        if has_name(d, n) {
            let i = choose|i: int| 0 <= i < d.len() && (#[trigger] d[i]).0 == n;
            assert(s[i].0 == n);
        }
        let f = firsts(d);
        if !has_name(d, s.last().0) {
            let g = f.push(s.last());
            assert(g[f.len() as int].0 == s.last().0);
            if has_name(g, n) {
                let i = choose|i: int| 0 <= i < g.len() && (#[trigger] g[i]).0 == n;
                if i < f.len() {
                    assert(f[i].0 == n);
                }
            }
            if has_name(f, n) {
                let i = choose|i: int| 0 <= i < f.len() && (#[trigger] f[i]).0 == n;
                assert(g[i].0 == n);
            }
        }
    }
}

/// `x` inserted after the last element whose name is not greater.
pub open spec fn insert_by_name(s: Seq<EnumView>, x: EnumView) -> Seq<EnumView>
    decreases s.len(),
{
    if s.len() == 0 {
        seq![x]
    } else if seq_le(s.last().0, x.0) {
        s.push(x)
    } else {
        insert_by_name(s.drop_last(), x).push(s.last())
    }
}

/// Sort by name (stable insertion).
pub open spec fn sort_by_name(s: Seq<EnumView>) -> Seq<EnumView>
    decreases s.len(),
{
    if s.len() == 0 {
        seq![]
    } else {
        insert_by_name(sort_by_name(s.drop_last()), s.last())
    }
}

proof fn lemma_insert_at(s: Seq<EnumView>, x: EnumView, k: int)
    requires
        0 <= k <= s.len(),
        forall|j: int| k <= j < s.len() ==> !seq_le(#[trigger] s[j].0, x.0),
        k > 0 ==> seq_le(s[k - 1].0, x.0),
    ensures
        insert_by_name(s, x) == s.insert(k, x),
    decreases s.len(),
{
    if s.len() == 0 {
        assert(s.insert(k, x) =~= seq![x]);
    } else if k == s.len() {
        assert(s.insert(k, x) =~= s.push(x));
    } else {
        lemma_insert_at(s.drop_last(), x, k);
        assert(s.insert(k, x) =~= s.drop_last().insert(k, x).push(s.last()));
    }
}

pub open spec fn flatten(batches: Seq<Seq<EnumView>>) -> Seq<EnumView>
    decreases batches.len(),
{
    if batches.len() == 0 {
        seq![]
    } else {
        flatten(batches.drop_last()) + batches.last()
    }
}

pub open spec fn batch_views(b: Seq<Vec<ParsedEnum>>) -> Seq<Seq<EnumView>> {
    b.map_values(|v: Vec<ParsedEnum>| evs(v@))
}

fn name_taken(kept: &Vec<ParsedEnum>, name: &str) -> (r: bool)
    ensures
        r == has_name(evs(kept@), name@),
{
    let mut i: usize = 0;
    while i < kept.len()
        invariant
            i <= kept@.len(),
            forall|j: int| 0 <= j < i ==> evs(kept@)[j].0 != name@,
        decreases kept@.len() - i,
    {
        if str_eq(kept[i].name.as_str(), name) {
            assert(evs(kept@)[i as int].0 == name@);
            return true;
        }
        i = i + 1;
    }
    false
}

fn sort_enums_by_name(v: Vec<ParsedEnum>) -> (r: Vec<ParsedEnum>)
    ensures
        evs(r@) == sort_by_name(evs(v@)),
{
    let ghost src = evs(v@);
    let mut out: Vec<ParsedEnum> = Vec::new();
    let mut i: usize = 0;
    assert(src.take(0) =~= Seq::<EnumView>::empty());
    assert(evs(out@) =~= Seq::<EnumView>::empty());
    while i < v.len()
        invariant
            i <= v@.len(),
            src == evs(v@),
            evs(out@) == sort_by_name(src.take(i as int)),
        decreases v@.len() - i,
    {
        let x = clone_enum(&v[i]);
        let ghost xv = ev(x);
        let mut k: usize = out.len();
        while k > 0 && !str_le(out[k - 1].name.as_str(), x.name.as_str())
            invariant
                k <= out@.len(),
                xv == ev(x),
                forall|j: int| k <= j < out@.len() ==> !seq_le(#[trigger] evs(out@)[j].0, xv.0),
            decreases k,
        {
            k = k - 1;
        }
        let ghost before = evs(out@);
        proof {
            lemma_insert_at(before, xv, k as int);
        }
        out.insert(k, x);
        assert(evs(out@) =~= before.insert(k as int, xv));
        assert(src.take(i + 1).drop_last() =~= src.take(i as int));
        assert(src.take(i + 1).last() == src[i as int]);
        i = i + 1;
    }
    assert(src.take(v@.len() as int) =~= src);
    out
}

/// Merge the enums parsed from each migration (in migration order): the
/// first declaration of a name wins and later ones are reported as
/// duplicates; the kept enums come out sorted by name.
pub fn merge_scans(batches: &Vec<Vec<ParsedEnum>>) -> (r: ScanReport)
    ensures
        evs(r.enums@) == sort_by_name(firsts(flatten(batch_views(batches@)))),
        views(r.duplicates@) == dup_names(flatten(batch_views(batches@))),
{
    let ghost bv = batch_views(batches@);
    let mut kept: Vec<ParsedEnum> = Vec::new();
    let mut dups: Vec<String> = Vec::new();
    let mut b: usize = 0;
    assert(bv.take(0) =~= Seq::<Seq<EnumView>>::empty());
    assert(evs(kept@) =~= Seq::<EnumView>::empty());
    while b < batches.len()
        invariant
            b <= batches@.len(),
            bv == batch_views(batches@),
            evs(kept@) == firsts(flatten(bv.take(b as int))),
            views(dups@) == dup_names(flatten(bv.take(b as int))),
        decreases batches@.len() - b,
    {
        let batch = &batches[b];
        let ghost done = flatten(bv.take(b as int));
        let mut i: usize = 0;
        assert(done + evs(batch@).take(0) =~= done);
        while i < batch.len()
            invariant
                i <= batch@.len(),
                batch == &batches@[b as int],
                evs(kept@) == firsts(done + evs(batch@).take(i as int)),
                views(dups@) == dup_names(done + evs(batch@).take(i as int)),
            decreases batch@.len() - i,
        {
            let ghost cur = done + evs(batch@).take(i as int);
            let ghost next = done + evs(batch@).take(i + 1);
            assert(next.drop_last() =~= cur);
            assert(next.last() == ev(batch@[i as int]));
            proof {
                lemma_firsts_names(cur, batch@[i as int].name@);
            }
            if name_taken(&kept, batch[i].name.as_str()) {
                let ghost before = views(dups@);
                dups.push(owned(batch[i].name.as_str()));
                assert(views(dups@) =~= before.push(batch@[i as int].name@));
            } else {
                let ghost before = evs(kept@);
                kept.push(clone_enum(&batch[i]));
                assert(evs(kept@) =~= before.push(ev(batch@[i as int])));
            }
            i = i + 1;
        }
        assert(evs(batch@).take(batch@.len() as int) =~= evs(batch@));
        assert(bv.take(b + 1).drop_last() =~= bv.take(b as int));
        assert(bv.take(b + 1).last() == evs(batch@));
        b = b + 1;
    }
    assert(bv.take(batches@.len() as int) =~= bv);
    ScanReport { enums: sort_enums_by_name(kept), duplicates: dups }
}

/// The enums without a hand-written type of the same PascalCase name.
pub open spec fn targets_spec(enums: Seq<EnumView>, user_enums: Seq<Seq<char>>) -> Seq<EnumView>
    decreases enums.len(),
{
    if enums.len() == 0 {
        seq![]
    } else if user_enums.contains(pascalize_spec(enums.last().0)) {
        targets_spec(enums.drop_last(), user_enums)
    } else {
        targets_spec(enums.drop_last(), user_enums).push(enums.last())
    }
}

fn contains_str(v: &Vec<String>, s: &str) -> (r: bool)
    ensures
        r == views(v@).contains(s@),
{
    let mut i: usize = 0;
    while i < v.len()
        invariant
            i <= v.len(),
            forall|j: int| 0 <= j < i ==> views(v@)[j] != s@,
        decreases v.len() - i,
    {
        if str_eq(v[i].as_str(), s) {
            assert(views(v@)[i as int] == s@);
            return true;
        }
        i = i + 1;
    }
    false
}

/// The enums that get a generated module, in order.
pub fn emit_targets(enums: &Vec<ParsedEnum>, user_enums: &Vec<String>) -> (r: Vec<ParsedEnum>)
    ensures
        evs(r@) == targets_spec(evs(enums@), views(user_enums@)),
{
    let ghost src = evs(enums@);
    let mut out: Vec<ParsedEnum> = Vec::new();
    let mut i: usize = 0;
    assert(src.take(0) =~= Seq::<EnumView>::empty());
    assert(evs(out@) =~= Seq::<EnumView>::empty());
    while i < enums.len()
        invariant
            i <= enums@.len(),
            src == evs(enums@),
            evs(out@) == targets_spec(src.take(i as int), views(user_enums@)),
        decreases enums@.len() - i,
    {
        assert(src.take(i + 1).drop_last() =~= src.take(i as int));
        assert(src.take(i + 1).last() == src[i as int]);
        let pascal = enum_type_name(enums[i].name.as_str());
        if !contains_str(user_enums, pascal.as_str()) {
            let ghost before = evs(out@);
            out.push(clone_enum(&enums[i]));
            assert(evs(out@) =~= before.push(src[i as int]));
        }
        i = i + 1;
    }
    assert(src.take(enums@.len() as int) =~= src);
    out
}

pub open spec fn enum_mod_line() -> spec_fn(Seq<char>) -> Seq<char> {
    |n: Seq<char>| "pub mod "@ + n + ";\n"@
}

pub open spec fn enum_use_line() -> spec_fn(Seq<char>) -> Seq<char> {
    |n: Seq<char>| "pub use "@ + n + "::"@ + pascalize_spec(n) + ";\n"@
}

/// The enums barrel: a module per enum and a re-export of each type, both
/// in name order, separated by a blank line.
pub open spec fn barrel_spec(enums: Seq<EnumView>) -> Seq<char> {
    let names = enums.map_values(|e: EnumView| e.0).sort_by(lex());
    concat_map(names, enum_mod_line()) + "\n"@ + concat_map(names, enum_use_line())
}

fn barrel_lines(names: &Vec<String>, uses: bool) -> (r: String)
    ensures
        r@ == concat_map(views(names@), if uses { enum_use_line() } else { enum_mod_line() }),
{
    let ghost vs = views(names@);
    let ghost g = if uses { enum_use_line() } else { enum_mod_line() };
    let mut out = String::new();
    let mut i: usize = 0;
    assert(vs.take(0) =~= Seq::<Seq<char>>::empty());
    while i < names.len()
        invariant
            i <= names@.len(),
            vs == views(names@),
            g == if uses { enum_use_line() } else { enum_mod_line() },
            out@ == concat_map(vs.take(i as int), g),
        decreases names@.len() - i,
    {
        let n = names[i].as_str();
        if uses {
            let t = enum_type_name(n);
            out.append("pub use ");
            out.append(n);
            out.append("::");
            out.append(t.as_str());
            out.append(";\n");
        } else {
            out.append("pub mod ");
            out.append(n);
            out.append(";\n");
        }
        proof {
            lemma_concat_map_step(vs, i as int, g);
            assert(vs[i as int] == n@);
        }
        i = i + 1;
    }
    proof {
        lemma_concat_map_all(vs, g);
    }
    out
}

/// `structs/generated/enums/mod.rs` (without the generated marker).
pub fn render_barrel(enums: &Vec<ParsedEnum>) -> (r: String)
    ensures
        r@ == barrel_spec(evs(enums@)),
{
    let mut names: Vec<String> = Vec::new();
    let mut i: usize = 0;
    while i < enums.len()
        invariant
            i <= enums@.len(),
            views(names@) == evs(enums@).take(i as int).map_values(|e: EnumView| e.0),
        decreases enums@.len() - i,
    {
        let ghost before = views(names@);
        names.push(owned(enums[i].name.as_str()));
        assert(views(names@) =~= before.push(enums@[i as int].name@));
        assert(evs(enums@).take(i + 1).map_values(|e: EnumView| e.0) =~= evs(enums@).take(i as int).map_values(
            |e: EnumView| e.0,
        ).push(enums@[i as int].name@));
        i = i + 1;
    }
    assert(evs(enums@).take(enums@.len() as int) =~= evs(enums@));
    let sorted = sort_strings(names);
    let mut out = barrel_lines(&sorted, false);
    out.append("\n");
    let uses = barrel_lines(&sorted, true);
    out.append(uses.as_str());
    out
}


/// Index of the first metadata for the enum named `name`.
pub open spec fn meta_index(metas: Seq<EnumMeta>, name: Seq<char>) -> Option<int>
    decreases metas.len(),
{
    if metas.len() == 0 {
        None
    } else if metas[0].name@ == name {
        Some(0)
    } else {
        match meta_index(metas.drop_first(), name) {
            Some(i) => Some(i + 1),
            None => None,
        }
    }
}

proof fn lemma_meta_index(metas: Seq<EnumMeta>, name: Seq<char>)
    ensures
        meta_index(metas, name) matches Some(i) ==> 0 <= i < metas.len() && metas[i].name@ == name,
    decreases metas.len(),
{
    if metas.len() > 0 {
        lemma_meta_index(metas.drop_first(), name);
    }
}

fn find_meta(metas: &Vec<EnumMeta>, name: &str) -> (r: Option<usize>)
    ensures
        match r {
            Some(i) => meta_index(metas@, name@) == Some(i as int),
            None => meta_index(metas@, name@) is None,
        },
{
    let mut i: usize = 0;
    assert(metas@.skip(0) =~= metas@);
    while i < metas.len()
        invariant
            i <= metas@.len(),
            meta_index(metas@, name@) == match meta_index(metas@.skip(i as int), name@) {
                Some(k) => Some(k + i),
                None => None,
            },
        decreases metas@.len() - i,
    {
        assert(metas@.skip(i as int).drop_first() =~= metas@.skip(i + 1));
        assert(metas@.skip(i as int)[0] == metas@[i as int]);
        if str_eq(metas[i].name.as_str(), name) {
            return Some(i);
        }
        i = i + 1;
    }
    None
}

/// A generated enum's module: labelled by the first metadata for its name,
/// or with PascalCase labels when there is none.
pub open spec fn enum_module_spec(p: ParsedEnum, metas: Seq<EnumMeta>) -> Seq<char> {
    match meta_index(metas, p.name@) {
        Some(i) => enum_file_spec(p, metas[i]),
        None => enum_body_spec(p, Seq::empty()),
    }
}

/// The files of `structs/generated/enums/`: one module per target, named
/// after the SQL type, then the barrel.
pub open spec fn enum_plan_spec(targets: Seq<ParsedEnum>, metas: Seq<EnumMeta>) -> Seq<(Seq<char>, Seq<char>)> {
    targets.map_values(|p: ParsedEnum| (p.name@ + ".rs"@, enum_module_spec(p, metas))).push(
        ("mod.rs"@, barrel_spec(evs(targets))),
    )
}

fn enum_module(p: &ParsedEnum, metas: &Vec<EnumMeta>) -> (r: String)
    ensures
        r@ == enum_module_spec(*p, metas@),
{
    match find_meta(metas, p.name.as_str()) {
        Some(i) => {
            proof {
                lemma_meta_index(metas@, p.name@);
            }
            render_enum_file(p, &metas[i])
        },
        None => {
            let empty = EnumMeta::empty(p.name.as_str());
            let body = render_enum_file(p, &empty);
            assert(empty.variants@ =~= Seq::empty());
            body
        },
    }
}

/// The files the enum pass writes for `targets`, bodies without markers.
pub fn plan_files(targets: &Vec<ParsedEnum>, metas: &Vec<EnumMeta>) -> (r: Vec<(String, String)>)
    ensures
        file_pairs(r@) == enum_plan_spec(targets@, metas@),
{
    let mut out: Vec<(String, String)> = Vec::new();
    let mut i: usize = 0;
    while i < targets.len()
        invariant
            i <= targets@.len(),
            file_pairs(out@) == targets@.take(i as int).map_values(
                |p: ParsedEnum| (p.name@ + ".rs"@, enum_module_spec(p, metas@)),
            ),
        decreases targets@.len() - i,
    {
        let ghost before = file_pairs(out@);
        let mut name = owned(targets[i].name.as_str());
        name.append(".rs");
        let body = enum_module(&targets[i], metas);
        out.push((name, body));
        assert(file_pairs(out@) =~= before.push((targets@[i as int].name@ + ".rs"@, enum_module_spec(targets@[i as int], metas@))));
        assert(targets@.take(i + 1).map_values(|p: ParsedEnum| (p.name@ + ".rs"@, enum_module_spec(p, metas@)))
            =~= targets@.take(i as int).map_values(|p: ParsedEnum| (p.name@ + ".rs"@, enum_module_spec(p, metas@))).push(
            (targets@[i as int].name@ + ".rs"@, enum_module_spec(targets@[i as int], metas@)),
        ));
        i = i + 1;
    }
    assert(targets@.take(targets@.len() as int) =~= targets@);
    let ghost files = file_pairs(out@);
    let barrel = render_barrel(targets);
    out.push((owned("mod.rs"), barrel));
    assert(file_pairs(out@) =~= files.push(("mod.rs"@, barrel_spec(evs(targets@)))));
    out
}

} // verus!
