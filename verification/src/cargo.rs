//! Decisions behind adding and removing a project's crate dependencies:
//! the search request, the lines the user picks from, and what was picked.
use vstd::prelude::*;
use crate::error::BlastError;
use crate::text::{chars_of, owned, push_char, str_eq, views};
use toml::{Table, Value};

verus! {

/// Refusal when no search term was given or typed.
pub const NO_SEARCH_TERM: &'static str = "No search term provided";

/// Refusal when the registry knows no crate for the search term.
pub const NO_MATCHING_CRATES: &'static str = "No matching crates found";

/// Refusal when the project has no manifest.
pub const CARGO_TOML_MISSING: &'static str = "Cargo.toml not found";

/// Refusal to remove from a manifest without a dependencies table.
pub const NO_DEPENDENCIES_TABLE: &'static str = "No dependencies found in Cargo.toml";

/// Descriptions longer than this many bytes are shortened.
pub const DESCRIPTION_LIMIT: usize = 60;

/// A shortened description keeps this many bytes, then `...`.
pub const DESCRIPTION_KEEP: usize = 57;

/// The registry search for `query`, fifty results at most.
pub fn search_url(query: &str) -> (r: String)
    ensures
        r@ == "https://crates.io/api/v1/crates?q="@ + query@ + "&per_page=50"@,
{
    let mut url = owned("https://crates.io/api/v1/crates?q=");
    url.append(query);
    url.append("&per_page=50");
    url
}

/// A search needs a term.
pub fn check_search_term(term: &str) -> (r: Result<(), String>)
    ensures
        match r {
            Ok(()) => term@.len() > 0,
            Err(m) => term@.len() == 0 && m@ == NO_SEARCH_TERM@,
        },
{
    let cs = chars_of(term);
    if cs.len() == 0 {
        Err(owned(NO_SEARCH_TERM))
    } else {
        Ok(())
    }
}

/// A search with no result is refused.
pub fn check_matches(count: usize) -> (r: Result<(), String>)
    ensures
        match r {
            Ok(()) => count > 0,
            Err(m) => count == 0 && m@ == NO_MATCHING_CRATES@,
        },
{
    if count == 0 {
        Err(owned(NO_MATCHING_CRATES))
    } else {
        Ok(())
    }
}

/// Bytes of the UTF-8 encoding of `c`.
pub open spec fn utf8_width(c: char) -> nat {
    if (c as u32) < 0x80 {
        1
    } else if (c as u32) < 0x800 {
        2
    } else if (c as u32) < 0x10000 {
        3
    } else {
        4
    }
}

/// Bytes of the UTF-8 encoding of `s` (`str::len`).
pub open spec fn utf8_len(s: Seq<char>) -> nat
    decreases s.len(),
{
    if s.len() == 0 {
        0
    } else {
        utf8_len(s.drop_last()) + utf8_width(s.last())
    }
}

/// A long description can be cut after exactly `DESCRIPTION_KEEP` bytes,
/// that is at a character boundary.
pub open spec fn cuts_cleanly(d: Seq<char>) -> bool {
    utf8_len(d) > DESCRIPTION_LIMIT ==> exists|k: int| 0 <= k <= d.len() && utf8_len(#[trigger] d.take(k)) == DESCRIPTION_KEEP
}

/// The number of characters in the first `DESCRIPTION_KEEP` bytes.
pub open spec fn cut_point(d: Seq<char>) -> int {
    choose|k: int| 0 <= k <= d.len() && utf8_len(#[trigger] d.take(k)) == DESCRIPTION_KEEP
}

/// A description as listed: cut to its first `DESCRIPTION_KEEP` bytes and
/// `...` when longer than `DESCRIPTION_LIMIT` bytes.
pub open spec fn description_spec(d: Seq<char>) -> Seq<char> {
    if utf8_len(d) > DESCRIPTION_LIMIT {
        d.take(cut_point(d)) + "..."@
    } else {
        d
    }
}

proof fn lemma_utf8_step(s: Seq<char>, k: int)
    requires
        0 < k <= s.len(),
    ensures
        utf8_len(s.take(k)) == utf8_len(s.take(k - 1)) + utf8_width(s[k - 1]),
        utf8_width(s[k - 1]) >= 1,
{
    assert(s.take(k).drop_last() =~= s.take(k - 1));
}

proof fn lemma_utf8_increasing(s: Seq<char>, j: int, k: int)
    requires
        0 <= j < k <= s.len(),
    ensures
        utf8_len(s.take(j)) < utf8_len(s.take(k)),
    decreases k - j,
{
    lemma_utf8_step(s, k);
    if j < k - 1 {
        lemma_utf8_increasing(s, j, k - 1);
    }
}

fn utf8_width_of(c: char) -> (r: usize)
    ensures
        r == utf8_width(c),
{
    let n = c as u32;
    if n < 0x80 {
        1
    } else if n < 0x800 {
        2
    } else if n < 0x10000 {
        3
    } else {
        4
    }
}

/// See `description_spec`.
pub fn list_description(d: &str) -> (r: String)
    requires
        cuts_cleanly(d@),
    ensures
        r@ == description_spec(d@),
{
    let cs = chars_of(d);
    let mut i: usize = 0;
    let mut bytes: usize = 0;
    let mut cut: Option<usize> = None;
    while i < cs.len() && bytes <= DESCRIPTION_LIMIT
        invariant
            cs@ == d@,
            i <= cs@.len(),
            bytes == utf8_len(d@.take(i as int)),
            bytes <= DESCRIPTION_LIMIT + 4,
            match cut {
                Some(k) => k <= i && utf8_len(d@.take(k as int)) == DESCRIPTION_KEEP,
                None => forall|j: int| 0 <= j < i ==> utf8_len(#[trigger] d@.take(j)) != DESCRIPTION_KEEP,
            },
        decreases cs@.len() - i,
    {
        if bytes == DESCRIPTION_KEEP && cut.is_none() {
            cut = Some(i);
        }
        proof {
            lemma_utf8_step(d@, i + 1);
        }
        bytes = bytes + utf8_width_of(cs[i]);
        i = i + 1;
    }
    if bytes == DESCRIPTION_KEEP && cut.is_none() {
        cut = Some(i);
    }
    if bytes > DESCRIPTION_LIMIT {
        proof {
            if i < d@.len() {
                lemma_utf8_increasing(d@, i as int, d@.len() as int);
            }
            assert(d@.take(d@.len() as int) =~= d@);
            let k0 = choose|k: int| 0 <= k <= d@.len() && utf8_len(#[trigger] d@.take(k)) == DESCRIPTION_KEEP;
            if k0 >= i {
                if k0 > i {
                    lemma_utf8_increasing(d@, i as int, k0);
                }
                assert(false);
            }
        }
        let k = match cut {
            Some(k) => k,
            None => {
                proof {
                    let k0 = choose|k: int| 0 <= k <= d@.len() && utf8_len(#[trigger] d@.take(k)) == DESCRIPTION_KEEP;
                    assert(utf8_len(d@.take(k0)) == DESCRIPTION_KEEP);
                }
                0
            },
        };
        proof {
            let k0 = cut_point(d@);
            if (k as int) < k0 {
                lemma_utf8_increasing(d@, k as int, k0);
            } else if k0 < (k as int) {
                lemma_utf8_increasing(d@, k0, k as int);
            }
        }
        let mut out = String::new();
        let mut j: usize = 0;
        while j < k
            invariant
                cs@ == d@,
                k <= cs@.len(),
                j <= k,
                out@ == d@.take(j as int),
            decreases k - j,
        {
            push_char(&mut out, cs[j]);
            j = j + 1;
            assert(out@ =~= d@.take(j as int));
        }
        out.append("...");
        out
    } else {
        assert(d@.take(i as int) =~= d@);
        owned(d)
    }
}

proof fn lemma_utf8_concat(a: Seq<char>, b: Seq<char>)
    ensures
        utf8_len(a + b) == utf8_len(a) + utf8_len(b),
    decreases b.len(),
{
    if b.len() == 0 {
        assert(a + b =~= a);
    } else {
        lemma_utf8_concat(a, b.drop_last());
        assert((a + b).drop_last() =~= a + b.drop_last());
        assert((a + b).last() == b.last());
    }
}

/// A listed description never takes more than `DESCRIPTION_LIMIT` bytes.
pub proof fn lemma_listed_description_fits(d: Seq<char>)
    requires
        cuts_cleanly(d),
    ensures
        utf8_len(description_spec(d)) <= DESCRIPTION_LIMIT,
{
    if utf8_len(d) > DESCRIPTION_LIMIT {
        let k = cut_point(d);
        lemma_utf8_concat(d.take(k), "..."@);
        reveal_strlit("...");
        assert("..."@ =~= seq!['.', '.', '.']);
        assert(utf8_len(seq!['.', '.', '.']) == 3) by {
            assert(('.' as u32) == 46);
            assert(utf8_width('.') == 1);
            assert(utf8_len(Seq::<char>::empty()) == 0);
            assert(seq!['.'].drop_last() =~= Seq::<char>::empty());
            assert(seq!['.'].last() == '.');
            assert(utf8_len(seq!['.']) == 1);
            assert(seq!['.', '.'].drop_last() =~= seq!['.']);
            assert(seq!['.', '.'].last() == '.');
            assert(utf8_len(seq!['.', '.']) == 2);
            assert(seq!['.', '.', '.'].last() == '.');
            assert(seq!['.', '.', '.'].drop_last() =~= seq!['.', '.']);
        }
    }
}

pub open spec fn crate_choice_spec(
    name: Seq<char>,
    version: Seq<char>,
    downloads: Seq<char>,
    description: Option<Seq<char>>,
) -> Seq<char> {
    name + " v"@ + version + " ("@ + downloads + " downloads) - "@ + match description {
        Some(d) => description_spec(d),
        None => "No description"@,
    }
}

/// One line of the crate picker; `downloads` is the already formatted count.
pub fn crate_choice(name: &str, max_version: &str, downloads: &str, description: Option<&str>) -> (r: String)
    requires
        description matches Some(d) ==> cuts_cleanly(d@),
    ensures
        r@ == crate_choice_spec(
            name@,
            max_version@,
            downloads@,
            match description {
                Some(d) => Some(d@),
                None => None,
            },
        ),
{
    let mut out = owned(name);
    out.append(" v");
    out.append(max_version);
    out.append(" (");
    out.append(downloads);
    out.append(" downloads) - ");
    match description {
        Some(d) => {
            let shown = list_description(d);
            out.append(shown.as_str());
        },
        None => {
            out.append("No description");
        },
    }
    out
}

/// How a dependency is written in the manifest, as far as the listing reads it.
pub enum DependencySpec {
    /// `name = "1.2"`.
    Version(String),
    /// `name = { ... }`, with its `version` where that is a string.
    Detailed(Option<String>),
    /// Any other value.
    Other,
}

pub open spec fn dependency_version_spec(spec: DependencySpec) -> Seq<char> {
    match spec {
        DependencySpec::Version(v) => v@,
        DependencySpec::Detailed(Some(v)) => v@,
        DependencySpec::Detailed(None) => "complex dependency"@,
        DependencySpec::Other => "unknown version"@,
    }
}

pub open spec fn dependency_choice_spec(name: Seq<char>, spec: DependencySpec) -> Seq<char> {
    name + " ("@ + dependency_version_spec(spec) + ")"@
}

fn dependency_choice(name: &String, spec: &DependencySpec) -> (r: String)
    ensures
        r@ == dependency_choice_spec(name@, *spec),
{
    let mut out = owned(name.as_str());
    out.append(" (");
    match spec {
        DependencySpec::Version(v) => out.append(v.as_str()),
        DependencySpec::Detailed(Some(v)) => out.append(v.as_str()),
        DependencySpec::Detailed(None) => out.append("complex dependency"),
        DependencySpec::Other => out.append("unknown version"),
    }
    out.append(")");
    out
}

/// The removal picker's lines, one per dependency in manifest order:
/// its name and, in brackets, its version.
pub fn dependency_choices(deps: &Vec<(String, DependencySpec)>) -> (r: Vec<String>)
    ensures
        r@.len() == deps@.len(),
        forall|i: int| 0 <= i < deps@.len() ==> #[trigger] r@[i]@ == dependency_choice_spec(deps@[i].0@, deps@[i].1),
{
    let mut out: Vec<String> = Vec::new();
    let mut i: usize = 0;
    while i < deps.len()
        invariant
            i <= deps@.len(),
            out@.len() == i,
            forall|j: int| 0 <= j < i ==> #[trigger] out@[j]@ == dependency_choice_spec(deps@[j].0@, deps@[j].1),
        decreases deps@.len() - i,
    {
        let line = dependency_choice(&deps[i].0, &deps[i].1);
        out.push(line);
        i = i + 1;
    }
    out
}

/// The names at the picked positions, in the order picked.
pub fn selected_dependencies(names: &Vec<String>, selections: &Vec<usize>) -> (r: Vec<String>)
    requires
        forall|i: int| 0 <= i < selections@.len() ==> #[trigger] selections@[i] < names@.len(),
    ensures
        r@.len() == selections@.len(),
        forall|i: int| 0 <= i < selections@.len() ==> #[trigger] r@[i]@ == names@[selections@[i] as int]@,
{
    let mut out: Vec<String> = Vec::new();
    let mut i: usize = 0;
    while i < selections.len()
        invariant
            i <= selections@.len(),
            forall|j: int| 0 <= j < selections@.len() ==> #[trigger] selections@[j] < names@.len(),
            out@.len() == i,
            forall|j: int| 0 <= j < i ==> #[trigger] out@[j]@ == names@[selections@[j] as int]@,
        decreases selections@.len() - i,
    {
        let k = selections[i];
        out.push(owned(names[k].as_str()));
        i = i + 1;
    }
    out
}


/// A project's `Cargo.toml`, as `toml` parses it.
#[verifier::external_body]
pub struct Manifest {
    table: Table,
}

/// One dependency as the manifest edits read it: its name; 0 for a version
/// string, 1 for a table, 2 for anything else; the version string (the
/// table's `version` string for a table) where there is one.
pub type DepEntry = (Seq<char>, nat, Option<Seq<char>>);

/// One top-level entry of a manifest other than `dependencies`: its key and
/// its value as `toml` writes a value.
pub type OtherEntry = (Seq<char>, Seq<char>);

/// A parsed manifest as the edits read it: whether its `dependencies` key
/// holds a table, that table's entries, and the other top-level entries.
pub type ManifestView = (bool, Seq<DepEntry>, Seq<OtherEntry>);

/// The entries of the manifest's `[dependencies]` table, in the table's
/// order; empty when it has none.
pub uninterp spec fn manifest_deps(m: Manifest) -> Seq<DepEntry>;

/// Whether the manifest's `dependencies` key holds a table.
pub uninterp spec fn manifest_has_deps(m: Manifest) -> bool;

/// The manifest's top-level entries other than `dependencies`, in the
/// table's order.
pub uninterp spec fn manifest_others(m: Manifest) -> Seq<OtherEntry>;

/// What `toml::to_string` gives for the manifest; `None` where it fails.
pub uninterp spec fn manifest_toml(m: Manifest) -> Option<Seq<char>>;

/// What `toml::from_str` gives for a text, read as a `ManifestView`; `None`
/// where the text is not TOML.
pub uninterp spec fn toml_manifest(text: Seq<char>) -> Option<ManifestView>;

/// The entry of `name`, if any.
pub open spec fn dep_lookup(deps: Seq<DepEntry>, name: Seq<char>) -> Option<(nat, Option<Seq<char>>)>
    decreases deps.len(),
{
    if deps.len() == 0 {
        None
    } else if deps.last().0 == name {
        Some((deps.last().1, deps.last().2))
    } else {
        dep_lookup(deps.drop_last(), name)
    }
}

/// `toml::from_str` on a manifest's text; the error as text. The contract
/// names the result (`toml_manifest`); the error's text is not stated.
#[verifier::external_body]
fn parse_manifest(text: &str) -> (r: Result<Manifest, String>)
    ensures
        r is Ok <==> toml_manifest(text@) is Some,
        r matches Ok(m) ==> toml_manifest(text@) == Some(
            (manifest_has_deps(m), manifest_deps(m), manifest_others(m)),
        ),
{
    toml::from_str::<Table>(text).map(|table| Manifest { table }).map_err(|e| e.to_string())
}

/// `toml::to_string` of the manifest; the error as text, not stated.
#[verifier::external_body]
fn render_manifest(m: &Manifest) -> (r: Result<String, String>)
    ensures
        r is Ok <==> manifest_toml(*m) is Some,
        r matches Ok(s) ==> manifest_toml(*m) == Some(s@),
{
    toml::to_string(&m.table).map_err(|e| e.to_string())
}

/// `Map::insert("dependencies", Value::Table(Table::new()))`: the key now
/// holds an empty table, whatever it held; the other top-level entries stay,
/// in their order.
#[verifier::external_body]
fn insert_empty_dependency_table(m: &mut Manifest)
    ensures
        manifest_has_deps(*final(m)),
        manifest_deps(*final(m)) == Seq::<DepEntry>::empty(),
        manifest_others(*final(m)) == manifest_others(*old(m)),
{
    m.table.insert("dependencies".to_string(), Value::Table(Table::new()));
}

/// `Map::insert(name, Value::String(version))` on the dependencies table:
/// the name takes the version and the other entries stay in their order. An
/// existing name keeps its place; where a new one lands depends on the map
/// `toml` is built with (sorted by key, or last), which is not stated.
#[verifier::external_body]
fn insert_dependency(m: &mut Manifest, name: &str, version: &str)
    requires
        manifest_has_deps(*old(m)),
    ensures
        manifest_has_deps(*final(m)),
        dep_lookup(manifest_deps(*final(m)), name@) == Some((0nat, Some(version@))),
        without_names(manifest_deps(*final(m)), seq![name@]) == without_names(
            manifest_deps(*old(m)),
            seq![name@],
        ),
        manifest_others(*final(m)) == manifest_others(*old(m)),
{
    if let Some(Value::Table(deps)) = m.table.get_mut("dependencies") {
        deps.insert(name.to_string(), Value::String(version.to_string()));
    }
}

/// `Map::remove(name)` on the dependencies table: that entry goes, the
/// others stay in order; the other top-level entries stay too.
#[verifier::external_body]
fn remove_dependency_entry(m: &mut Manifest, name: &str)
    requires
        manifest_has_deps(*old(m)),
    ensures
        manifest_has_deps(*final(m)),
        manifest_deps(*final(m)) == without_names(manifest_deps(*old(m)), seq![name@]),
        manifest_others(*final(m)) == manifest_others(*old(m)),
{
    if let Some(Value::Table(deps)) = m.table.get_mut("dependencies") {
        deps.remove(name);
    }
}

/// A dependency's value as the manifest holds it: a version string; a
/// table, as its keys each with its string value (`None` where the value is
/// not a string); anything else.
pub enum RawDependency {
    Text(String),
    Table(Vec<(String, Option<String>)>),
    Other,
}

pub open spec fn opt_view(o: Option<String>) -> Option<Seq<char>> {
    match o {
        Some(s) => Some(s@),
        None => None,
    }
}

pub open spec fn table_views(t: Seq<(String, Option<String>)>) -> Seq<(Seq<char>, Option<Seq<char>>)> {
    t.map_values(|p: (String, Option<String>)| (p.0@, opt_view(p.1)))
}

/// The string under `key` among a table's entries.
pub open spec fn table_string(t: Seq<(Seq<char>, Option<Seq<char>>)>, key: Seq<char>) -> Option<Seq<char>>
    decreases t.len(),
{
    if t.len() == 0 {
        None
    } else if t.last().0 == key {
        t.last().1
    } else {
        table_string(t.drop_last(), key)
    }
}

pub open spec fn raw_entry_view(e: (String, RawDependency)) -> DepEntry {
    match e.1 {
        RawDependency::Text(v) => (e.0@, 0, Some(v@)),
        RawDependency::Table(t) => (e.0@, 1, table_string(table_views(t@), "version"@)),
        RawDependency::Other => (e.0@, 2, None),
    }
}

pub open spec fn raw_entry_views(v: Seq<(String, RawDependency)>) -> Seq<DepEntry> {
    v.map_values(|e: (String, RawDependency)| raw_entry_view(e))
}

/// The dependencies table's entries in order, each value told apart by
/// kind (`Value::String`, `Value::Table` with its entries, other).
#[verifier::external_body]
fn dependency_entries(m: &Manifest) -> (r: Vec<(String, RawDependency)>)
    requires
        manifest_has_deps(*m),
    ensures
        raw_entry_views(r@) == manifest_deps(*m),
{
    match m.table.get("dependencies") {
        Some(Value::Table(deps)) => deps.iter().map(|(k, v)| (k.clone(), match v {
            Value::String(s) => RawDependency::Text(s.clone()),
            Value::Table(t) => RawDependency::Table(t.iter().map(|(tk, tv)| (tk.clone(), match tv {
                Value::String(s) => Some(s.clone()),
                _ => None,
            })).collect()),
            _ => RawDependency::Other,
        })).collect(),
        _ => Vec::new(),
    }
}

/// The `version` string of a detailed dependency's table.
fn table_version(t: &Vec<(String, Option<String>)>) -> (r: Option<String>)
    ensures
        opt_view(r) == table_string(table_views(t@), "version"@),
{
    let ghost tv = table_views(t@);
    let mut r: Option<String> = None;
    let mut i: usize = 0;
    while i < t.len()
        invariant
            i <= t@.len(),
            tv == table_views(t@),
            opt_view(r) == table_string(tv.take(i as int), "version"@),
        decreases t@.len() - i,
    {
        assert(tv.take(i + 1).drop_last() =~= tv.take(i as int));
        if str_eq(t[i].0.as_str(), "version") {
            r = match &t[i].1 {
                Some(s) => Some(owned(s.as_str())),
                None => None,
            };
        }
        i = i + 1;
    }
    assert(tv.take(t@.len() as int) =~= tv);
    r
}

pub open spec fn dep_entry_view(e: (String, DependencySpec)) -> DepEntry {
    match e.1 {
        DependencySpec::Version(v) => (e.0@, 0, Some(v@)),
        DependencySpec::Detailed(Some(v)) => (e.0@, 1, Some(v@)),
        DependencySpec::Detailed(None) => (e.0@, 1, None),
        DependencySpec::Other => (e.0@, 2, None),
    }
}

pub open spec fn dep_entry_views(v: Seq<(String, DependencySpec)>) -> Seq<DepEntry> {
    v.map_values(|e: (String, DependencySpec)| dep_entry_view(e))
}

/// The dependencies a manifest lists, in its order; none when it has no
/// dependencies table. A text that is not TOML is refused.
pub fn manifest_dependencies(content: &str) -> (r: Result<Vec<(String, DependencySpec)>, BlastError>)
    ensures
        match r {
            Ok(v) => toml_manifest(content@) matches Some(t) && dep_entry_views(v@) == (if t.0 {
                t.1
            } else {
                Seq::<DepEntry>::empty()
            }),
            Err(BlastError::Invalid(_)) => toml_manifest(content@) is None,
            Err(_) => false,
        },
{
    let m = match parse_manifest(content) {
        Ok(m) => m,
        Err(e) => {
            return Err(BlastError::Invalid(e));
        },
    };
    let mut out: Vec<(String, DependencySpec)> = Vec::new();
    if !has_dependency_table(&m) {
        assert(dep_entry_views(out@) =~= Seq::<DepEntry>::empty());
        return Ok(out);
    }
    let raw = dependency_entries(&m);
    let mut i: usize = 0;
    while i < raw.len()
        invariant
            i <= raw@.len(),
            out@.len() == i,
            forall|j: int| 0 <= j < i ==> #[trigger] dep_entry_view(out@[j]) == raw_entry_view(raw@[j]),
        decreases raw@.len() - i,
    {
        let spec = match &raw[i].1 {
            RawDependency::Text(v) => DependencySpec::Version(owned(v.as_str())),
            RawDependency::Table(t) => DependencySpec::Detailed(table_version(t)),
            RawDependency::Other => DependencySpec::Other,
        };
        out.push((owned(raw[i].0.as_str()), spec));
        i = i + 1;
    }
    assert(dep_entry_views(out@) =~= raw_entry_views(raw@));
    Ok(out)
}

/// Whether the `dependencies` key holds a table.
#[verifier::external_body]
fn has_dependency_table(m: &Manifest) -> (r: bool)
    ensures
        r == manifest_has_deps(*m),
{
    matches!(m.table.get("dependencies"), Some(Value::Table(_)))
}

/// A manifest that is `parsed` with `name = "version"` in its dependencies
/// table (created empty where there was none): every other dependency keeps
/// its entry and its order, and every other top-level entry stays.
pub open spec fn with_dependency_spec(m: Manifest, parsed: ManifestView, name: Seq<char>, version: Seq<char>) -> bool {
    let before = if parsed.0 {
        parsed.1
    } else {
        Seq::<DepEntry>::empty()
    };
    &&& manifest_has_deps(m)
    &&& dep_lookup(manifest_deps(m), name) == Some((0nat, Some(version)))
    &&& forall|k: Seq<char>| k != name ==> #[trigger] dep_lookup(manifest_deps(m), k) == dep_lookup(before, k)
    &&& without_names(manifest_deps(m), seq![name]) == without_names(before, seq![name])
    &&& manifest_others(m) == parsed.2
}

/// A name that is not among `names` finds the same entry with or without them.
proof fn lemma_lookup_without(d: Seq<DepEntry>, names: Seq<Seq<char>>, k: Seq<char>)
    requires
        !names.contains(k),
    ensures
        dep_lookup(without_names(d, names), k) == dep_lookup(d, k),
    decreases d.len(),
{
    if d.len() > 0 {
        lemma_lookup_without(d.drop_last(), names, k);
        if !names.contains(d.last().0) {
            let w = without_names(d.drop_last(), names);
            assert(w.push(d.last()).drop_last() =~= w);
        }
    }
}

/// The manifest text with `name = "version"` in its dependencies table,
/// which is created where the `dependencies` key holds no table. A text
/// that is not TOML, or a manifest `toml` cannot write back, is refused.
pub fn manifest_with_dependency(content: &str, name: &str, version: &str) -> (r: Result<String, BlastError>)
    ensures
        match r {
            Ok(s) => toml_manifest(content@) matches Some(t) && exists|m: Manifest|
                with_dependency_spec(m, t, name@, version@) && #[trigger] manifest_toml(m) == Some(s@),
            Err(BlastError::Invalid(_)) => match toml_manifest(content@) {
                None => true,
                Some(t) => exists|m: Manifest| with_dependency_spec(m, t, name@, version@) && #[trigger] manifest_toml(m) is None,
            },
            Err(_) => false,
        },
{
    let mut m = match parse_manifest(content) {
        Ok(m) => m,
        Err(e) => {
            return Err(BlastError::Invalid(e));
        },
    };
    let ghost m0 = m;
    if !has_dependency_table(&m) {
        insert_empty_dependency_table(&mut m);
    }
    let ghost m1 = m;
    insert_dependency(&mut m, name, version);
    proof {
        let before = if manifest_has_deps(m0) {
            manifest_deps(m0)
        } else {
            Seq::<DepEntry>::empty()
        };
        assert(manifest_deps(m1) == before);
        assert forall|k: Seq<char>| k != name@ implies #[trigger] dep_lookup(manifest_deps(m), k) == dep_lookup(before, k) by {
            if seq![name@].contains(k) {
                let j = choose|j: int| 0 <= j < seq![name@].len() && seq![name@][j] == k;
                assert(seq![name@][j] == name@);
            }
            lemma_lookup_without(manifest_deps(m), seq![name@], k);
            lemma_lookup_without(manifest_deps(m1), seq![name@], k);
        }
        assert(with_dependency_spec(m, (manifest_has_deps(m0), manifest_deps(m0), manifest_others(m0)), name@, version@));
    }
    match render_manifest(&m) {
        Ok(s) => Ok(s),
        Err(e) => Err(BlastError::Invalid(e)),
    }
}

/// The entries whose name is not among `names`, in order.
pub open spec fn without_names(deps: Seq<DepEntry>, names: Seq<Seq<char>>) -> Seq<DepEntry>
    decreases deps.len(),
{
    if deps.len() == 0 {
        seq![]
    } else if names.contains(deps.last().0) {
        without_names(deps.drop_last(), names)
    } else {
        without_names(deps.drop_last(), names).push(deps.last())
    }
}

proof fn lemma_without_step(d: Seq<DepEntry>, a: Seq<Seq<char>>, n: Seq<char>)
    ensures
        without_names(without_names(d, a), seq![n]) == without_names(d, a.push(n)),
    decreases d.len(),
{
    if d.len() > 0 {
        lemma_without_step(d.drop_last(), a, n);
        let x = d.last().0;
        assert(a.push(n).contains(x) <==> (a.contains(x) || x == n)) by {
            if a.contains(x) {
                let j = choose|j: int| 0 <= j < a.len() && a[j] == x;
                assert(a.push(n)[j] == x);
            }
            if x == n {
                assert(a.push(n)[a.len() as int] == x);
            }
            if a.push(n).contains(x) {
                let j = choose|j: int| 0 <= j < a.push(n).len() && a.push(n)[j] == x;
                if j < a.len() {
                    assert(a[j] == x);
                }
            }
        }
        assert(seq![n].contains(x) <==> x == n) by {
            if x == n {
                assert(seq![n][0] == x);
            }
        }
        let w = without_names(d.drop_last(), a);
        if !a.contains(x) {
            assert(without_names(d, a) == w.push(d.last()));
            assert(without_names(w.push(d.last()), seq![n]).len() >= 0);
            assert(w.push(d.last()).drop_last() =~= w);
        }
    }
}

proof fn lemma_without_none(d: Seq<DepEntry>)
    ensures
        without_names(d, Seq::empty()) == d,
    decreases d.len(),
{
    if d.len() > 0 {
        lemma_without_none(d.drop_last());
        assert(d.drop_last().push(d.last()) =~= d);
    }
}

/// The manifest text with `names` removed from its dependencies table. A
/// manifest without a dependencies table is refused with
/// `No dependencies found in Cargo.toml`; so is a text that is not TOML or
/// a manifest `toml` cannot write back.
pub fn manifest_without(content: &str, names: &Vec<String>) -> (r: Result<String, BlastError>)
    ensures
        match r {
            Ok(s) => toml_manifest(content@) matches Some(t) && t.0 && exists|m: Manifest|
                manifest_has_deps(m) && manifest_deps(m) == without_names(t.1, views(names@)) && manifest_others(m)
                    == t.2 && #[trigger] manifest_toml(m) == Some(s@),
            Err(BlastError::Invalid(msg)) => match toml_manifest(content@) {
                None => true,
                Some(t) => if !t.0 {
                    msg@ == NO_DEPENDENCIES_TABLE@
                } else {
                    exists|m: Manifest|
                        manifest_has_deps(m) && manifest_deps(m) == without_names(t.1, views(names@))
                            && manifest_others(m) == t.2 && #[trigger] manifest_toml(m) is None
                },
            },
            Err(_) => false,
        },
{
    let mut m = match parse_manifest(content) {
        Ok(m) => m,
        Err(e) => {
            return Err(BlastError::Invalid(e));
        },
    };
    if !has_dependency_table(&m) {
        return Err(BlastError::Invalid(owned(NO_DEPENDENCIES_TABLE)));
    }
    let ghost d0 = manifest_deps(m);
    let ghost o0 = manifest_others(m);
    let ghost nv = views(names@);
    let mut i: usize = 0;
    proof {
        lemma_without_none(d0);
        assert(nv.take(0) =~= Seq::<Seq<char>>::empty());
    }
    while i < names.len()
        invariant
            i <= names@.len(),
            nv == views(names@),
            manifest_has_deps(m),
            manifest_deps(m) == without_names(d0, nv.take(i as int)),
            manifest_others(m) == o0,
        decreases names@.len() - i,
    {
        remove_dependency_entry(&mut m, names[i].as_str());
        proof {
            lemma_without_step(d0, nv.take(i as int), nv[i as int]);
            assert(nv.take(i + 1) =~= nv.take(i as int).push(nv[i as int]));
        }
        i = i + 1;
    }
    assert(nv.take(names@.len() as int) =~= nv);
    match render_manifest(&m) {
        Ok(s) => Ok(s),
        Err(e) => Err(BlastError::Invalid(e)),
    }
}

} // verus!
