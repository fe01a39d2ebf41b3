//! Decisions the generator runners share: which resources a pass covers,
//! in which order, and how an existing file is updated.
use vstd::prelude::*;
use vstd::string::*;
use crate::state::{GenLevel, ResourceState};
use crate::text::{
    chars_of, push_char, views, lemma_le_total, lemma_le_trans, owned, seq_contains, seq_ends_with, seq_le, str_contains, str_ends_with, str_eq, str_le,
};

verus! {

/// A file must be (re)written unless it already holds exactly `body`.
pub open spec fn needs_write_spec(existing: Option<Seq<char>>, body: Seq<char>) -> bool {
    existing != Some(body)
}

pub open spec fn opt_view(o: Option<String>) -> Option<Seq<char>> {
    match o {
        Some(s) => Some(s@),
        None => None,
    }
}

/// Whether a target with the given current contents must be written.
pub fn needs_write(existing: &Option<String>, body: &str) -> (r: bool)
    ensures
        r == needs_write_spec(opt_view(*existing), body@),
{
    match existing {
        Some(prev) => !str_eq(prev.as_str(), body),
        None => true,
    }
}

/// A barrel updated to contain `line`: unchanged (none) when the text is
/// already there; otherwise `line` and a newline appended, after a newline
/// when the file lacks a final one. A missing barrel is created holding
/// just the line when `create` is set, and left missing otherwise.
pub open spec fn ensure_line_spec(existing: Option<Seq<char>>, line: Seq<char>, create: bool) -> Option<Seq<char>> {
    match existing {
        None => if create {
            Some(line + "\n"@)
        } else {
            None
        },
        Some(prev) => if seq_contains(prev, line) {
            None
        } else {
            Some(prev + (if seq_ends_with(prev, "\n"@) { Seq::<char>::empty() } else { "\n"@ }) + line + "\n"@)
        },
    }
}

/// New contents of a barrel that must declare `line`, if it changes.
pub fn ensure_line(existing: &Option<String>, line: &str, create: bool) -> (r: Option<String>)
    ensures
        opt_view(r) == ensure_line_spec(opt_view(*existing), line@, create),
{
    match existing {
        None => if create {
            let mut s = owned(line);
            s.append("\n");
            Some(s)
        } else {
            None
        },
        Some(prev) => {
            if str_contains(prev.as_str(), line) {
                return None;
            }
            let mut s = owned(prev.as_str());
            if !str_ends_with(prev.as_str(), "\n") {
                s.append("\n");
            }
            proof {
                reveal_strlit("");
            }
            s.append(line);
            s.append("\n");
            Some(s)
        },
    }
}

/// The resources whose generation level reaches `level`, in order.
pub open spec fn at_level(rs: Seq<ResourceState>, level: GenLevel) -> Seq<ResourceState>
    decreases rs.len(),
{
    if rs.len() == 0 {
        seq![]
    } else if rs.last().gen_level.rank() >= level.rank() {
        at_level(rs.drop_last(), level).push(rs.last())
    } else {
        at_level(rs.drop_last(), level)
    }
}

/// Keep the resources a pass covers (generation level at least `level`).
pub fn resources_at_level(resources: Vec<ResourceState>, level: GenLevel) -> (r: Vec<ResourceState>)
    ensures
        r@ == at_level(resources@, level),
{
    let ghost src = resources@;
    let mut rest = resources;
    let mut out: Vec<ResourceState> = Vec::new();
    let ghost mut k: int = 0;
    assert(src.take(0) =~= Seq::<ResourceState>::empty());
    assert(rest@ =~= src.skip(0));
    while rest.len() > 0
        invariant
            0 <= k <= src.len(),
            rest@ == src.skip(k),
            out@ == at_level(src.take(k), level),
        decreases rest@.len(),
    {
        let r = rest.remove(0);
        assert(src.take(k + 1).drop_last() =~= src.take(k));
        assert(src.take(k + 1).last() == src[k]);
        assert(r == src[k]);
        if r.gen_level.at_least(level) {
            out.push(r);
        }
        proof {
            assert(rest@ =~= src.skip(k + 1));
            k = k + 1;
        }
    }
    assert(src.take(k) =~= src);
    out
}

/// `x` placed after the last resource whose name is not greater.
pub open spec fn insert_by_name(s: Seq<ResourceState>, x: ResourceState) -> Seq<ResourceState>
    decreases s.len(),
{
    if s.len() == 0 {
        seq![x]
    } else if seq_le(s.last().name@, x.name@) {
        s.push(x)
    } else {
        insert_by_name(s.drop_last(), x).push(s.last())
    }
}

/// Resources sorted by table name (stable).
pub open spec fn sort_by_name(s: Seq<ResourceState>) -> Seq<ResourceState>
    decreases s.len(),
{
    if s.len() == 0 {
        seq![]
    } else {
        insert_by_name(sort_by_name(s.drop_last()), s.last())
    }
}

proof fn lemma_insert_at(s: Seq<ResourceState>, x: ResourceState, k: int)
    requires
        0 <= k <= s.len(),
        forall|j: int| k <= j < s.len() ==> !seq_le(#[trigger] s[j].name@, x.name@),
        k > 0 ==> seq_le(s[k - 1].name@, x.name@),
    ensures
        insert_by_name(s, x) == s.insert(k, x),
    decreases s.len(),
{
    if s.len() == 0 {
        assert(s.insert(k, x) =~= seq![x]);
    } else if k == s.len() {
        assert(s.insert(k, x) =~= s.push(x));
    } else {
        lemma_insert_at(s.drop_last(), x, k);
        assert(s.insert(k, x) =~= s.drop_last().insert(k, x).push(s.last()));
    }
}

/// Sort resources by table name, keeping the input order of equal names.
pub fn sort_resources_by_name(resources: Vec<ResourceState>) -> (r: Vec<ResourceState>)
    ensures
        r@ == sort_by_name(resources@),
{
    let ghost src = resources@;
    let mut rest = resources;
    let mut out: Vec<ResourceState> = Vec::new();
    let ghost mut k: int = 0;
    assert(src.take(0) =~= Seq::<ResourceState>::empty());
    assert(rest@ =~= src.skip(0));
    while rest.len() > 0
        invariant
            0 <= k <= src.len(),
            rest@ == src.skip(k),
            out@ == sort_by_name(src.take(k)),
        decreases rest@.len(),
    {
        let x = rest.remove(0);
        assert(src.take(k + 1).drop_last() =~= src.take(k));
        assert(src.take(k + 1).last() == src[k]);
        let mut j: usize = out.len();
        while j > 0 && !str_le(out[j - 1].name.as_str(), x.name.as_str())
            invariant
                j <= out@.len(),
                forall|m: int| j <= m < out@.len() ==> !seq_le(#[trigger] out@[m].name@, x.name@),
            decreases j,
        {
            j = j - 1;
        }
        proof {
            lemma_insert_at(out@, x, j as int);
        }
        out.insert(j, x);
        proof {
            assert(rest@ =~= src.skip(k + 1));
            k = k + 1;
        }
    }
    assert(src.take(k) =~= src);
    out
}


/// A second run over unchanged inputs writes nothing: a target that already
/// holds the body a pass computes is never rewritten.
pub proof fn lemma_rerun_writes_nothing(body: Seq<char>)
    ensures
        !needs_write_spec(Some(body), body),
{
}

/// Declaring a line in a barrel is idempotent: once `ensure_line` has
/// added the line, a second call leaves the barrel unchanged.
pub proof fn lemma_ensure_line_idempotent(existing: Option<Seq<char>>, line: Seq<char>, create: bool)
    ensures
        ensure_line_spec(existing, line, create) matches Some(s) ==> ensure_line_spec(Some(s), line, create)
            is None,
{
    if let Some(s) = ensure_line_spec(existing, line, create) {
        let head: Seq<char> = match existing {
            None => Seq::<char>::empty(),
            Some(prev) => prev + (if seq_ends_with(prev, "\n"@) { Seq::<char>::empty() } else { "\n"@ }),
        };
        assert(s =~= head + line + "\n"@);
        let i = head.len() as int;
        assert(s.subrange(i, i + line.len()) =~= line);
        assert(seq_contains(s, line));
    }
}

/// Whether any resource reaches generation level `level`.
pub fn has_resources_at(resources: &Vec<ResourceState>, level: GenLevel) -> (r: bool)
    ensures
        r == (at_level(resources@, level).len() > 0),
{
    let mut i: usize = 0;
    assert(resources@.take(0) =~= Seq::<ResourceState>::empty());
    while i < resources.len()
        invariant
            i <= resources.len(),
            at_level(resources@.take(i as int), level).len() == 0,
        decreases resources.len() - i,
    {
        let ghost t = resources@.take(i + 1);
        assert(t.drop_last() =~= resources@.take(i as int));
        assert(t.last() == resources@[i as int]);
        if resources[i].gen_level.at_least(level) {
            proof {
                lemma_at_level_grows(resources@, i as int + 1, level);
            }
            return true;
        }
        i = i + 1;
    }
    assert(resources@.take(i as int) =~= resources@);
    false
}

proof fn lemma_at_level_grows(rs: Seq<ResourceState>, k: int, level: GenLevel)
    requires
        0 < k <= rs.len(),
        at_level(rs.take(k), level).len() > 0,
    ensures
        at_level(rs, level).len() > 0,
    decreases rs.len() - k,
{
    if k < rs.len() {
        let t = rs.take(k + 1);
        assert(t.drop_last() =~= rs.take(k));
        lemma_at_level_grows(rs, k + 1, level);
    } else {
        assert(rs.take(k) =~= rs);
    }
}

/// Resources sorted by `sort_resources_by_name` come out in name order.
pub proof fn lemma_sorted_by_name(s: Seq<ResourceState>)
    ensures
        forall|i: int, j: int| 0 <= i < j < sort_by_name(s).len() ==> seq_le(
            #[trigger] sort_by_name(s)[i].name@,
            #[trigger] sort_by_name(s)[j].name@,
        ),
        sort_by_name(s).len() == s.len(),
    decreases s.len(),
{
    if s.len() > 0 {
        lemma_sorted_by_name(s.drop_last());
        lemma_insert_keeps_sorted(sort_by_name(s.drop_last()), s.last());
    }
}

proof fn lemma_insert_keeps_sorted(s: Seq<ResourceState>, x: ResourceState)
    requires
        forall|i: int, j: int| 0 <= i < j < s.len() ==> seq_le(#[trigger] s[i].name@, #[trigger] s[j].name@),
    ensures
        forall|i: int, j: int| 0 <= i < j < insert_by_name(s, x).len() ==> seq_le(
            #[trigger] insert_by_name(s, x)[i].name@,
            #[trigger] insert_by_name(s, x)[j].name@,
        ),
        insert_by_name(s, x).len() == s.len() + 1,
        forall|k: int| 0 <= k < insert_by_name(s, x).len() ==> (#[trigger] insert_by_name(s, x)[k] == x || s.contains(
            insert_by_name(s, x)[k],
        )),
    decreases s.len(),
{
    if s.len() == 0 {
    } else if seq_le(s.last().name@, x.name@) {
        let r = s.push(x);
        assert forall|i: int, j: int| 0 <= i < j < r.len() implies seq_le(#[trigger] r[i].name@, #[trigger] r[j].name@) by {
            if j == s.len() {
                if i < s.len() - 1 {
                    lemma_le_trans(s[i].name@, s.last().name@, x.name@);
                }
            }
        }
        assert forall|k: int| 0 <= k < r.len() implies (#[trigger] r[k] == x || s.contains(r[k])) by {
            if k < s.len() {
                assert(s[k] == r[k]);
            }
        }
    } else {
        let d = s.drop_last();
        lemma_insert_keeps_sorted(d, x);
        let m = insert_by_name(d, x);
        let r = m.push(s.last());
        lemma_le_total(s.last().name@, x.name@);
        assert forall|k: int| 0 <= k < m.len() implies seq_le(#[trigger] m[k].name@, s.last().name@) by {
            if m[k] == x {
            } else {
                assert(d.contains(m[k]));
                let w = choose|w: int| 0 <= w < d.len() && d[w] == m[k];
                assert(s[w] == d[w]);
            }
        }
        assert forall|i: int, j: int| 0 <= i < j < r.len() implies seq_le(#[trigger] r[i].name@, #[trigger] r[j].name@) by {
            if j == m.len() {
                assert(r[i] == m[i]);
            } else {
                assert(r[i] == m[i] && r[j] == m[j]);
            }
        }
        assert forall|k: int| 0 <= k < r.len() implies (#[trigger] r[k] == x || s.contains(r[k])) by {
            if k < m.len() {
                if m[k] != x {
                    assert(d.contains(m[k]));
                    let w = choose|w: int| 0 <= w < d.len() && d[w] == m[k];
                    assert(s[w] == d[w]);
                }
            } else {
                assert(s[s.len() - 1] == s.last());
            }
        }
    }
}


/// Length of a planned file's name up to its first `/` or `.`.
pub open spec fn first_sep(rel: Seq<char>) -> int
    decreases rel.len(),
{
    if rel.len() == 0 || rel[0] == '/' || rel[0] == '.' {
        0
    } else {
        1 + first_sep(rel.drop_first())
    }
}

/// The name a planned file is written under, up to its first `/` or `.`:
/// the resource a per-resource file belongs to.
pub open spec fn owner_stem(rel: Seq<char>) -> Seq<char> {
    rel.take(first_sep(rel))
}

/// Index of the first name equal to `n`.
pub open spec fn first_index_of(names: Seq<Seq<char>>, n: Seq<char>) -> Option<int>
    decreases names.len(),
{
    if names.len() == 0 {
        None
    } else if names[0] == n {
        Some(0)
    } else {
        match first_index_of(names.drop_first(), n) {
            Some(i) => Some(i + 1),
            None => None,
        }
    }
}

/// The table a planned file belongs to: the first table named like the
/// file's name up to its first `/` or `.`; `None` for files of the whole pass.
pub fn owning_table(rel: &str, tables: &Vec<String>) -> (r: Option<usize>)
    ensures
        match r {
            Some(i) => first_index_of(views(tables@), owner_stem(rel@)) == Some(i as int),
            None => first_index_of(views(tables@), owner_stem(rel@)) is None,
        },
{
    let cs = chars_of(rel);
    let mut stem = String::new();
    let mut i: usize = 0;
    assert(rel@.skip(0) =~= rel@);
    while i < cs.len() && cs[i] != '/' && cs[i] != '.'
        invariant
            cs@ == rel@,
            i <= cs@.len(),
            stem@ == rel@.take(i as int),
            first_sep(rel@) == i + first_sep(rel@.skip(i as int)),
        decreases cs@.len() - i,
    {
        assert(rel@.skip(i as int).drop_first() =~= rel@.skip(i + 1));
        push_char(&mut stem, cs[i]);
        i = i + 1;
        assert(stem@ =~= rel@.take(i as int));
    }
    assert(first_sep(rel@.skip(i as int)) == 0);
    let ghost names = views(tables@);
    let mut k: usize = 0;
    assert(names.skip(0) =~= names);
    while k < tables.len()
        invariant
            k <= tables@.len(),
            names == views(tables@),
            stem@ == owner_stem(rel@),
            first_index_of(names, owner_stem(rel@)) == match first_index_of(names.skip(k as int), owner_stem(rel@)) {
                Some(j) => Some(j + k),
                None => None,
            },
        decreases tables@.len() - k,
    {
        assert(names.skip(k as int).drop_first() =~= names.skip(k + 1));
        assert(names.skip(k as int)[0] == tables@[k as int]@);
        if str_eq(tables[k].as_str(), stem.as_str()) {
            return Some(k);
        }
        k = k + 1;
    }
    None
}

} // verus!
