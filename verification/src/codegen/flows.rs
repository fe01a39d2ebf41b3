//! Per-resource flow stubs: one module per declared verb that checks the
//! verb's auth mode and runs the generated routine.
use vstd::prelude::*;
use vstd::string::*;
use crate::codegen::leptos_forms::render::{mod_line, mod_lines_spec, render_data_barrel, str_views};
use crate::codegen::pipeline::{at_level, resources_at_level};
use crate::codegen::naming::{pascal_case, pascal_case_spec, singularize, singularize_spec};
use crate::state::{AuthMode, GenLevel, ResourceState, Verb, VerbState};
use crate::text::{
    chars_of, concat_map, join, join_strings, lemma_concat_map_all, lemma_concat_map_step, lex, owned, push_char,
    sort_dedup_strings, sorted_distinct, views,
};

verus! {

/// Files a generator run wrote and files it left unchanged.
pub struct EmitReport {
    pub written: Vec<String>,
    pub skipped: Vec<String>,
}

impl EmitReport {
    pub fn new() -> (r: Self)
        ensures
            r.written@.len() == 0,
            r.skipped@.len() == 0,
    {
        EmitReport { written: Vec::new(), skipped: Vec::new() }
    }
}

pub open spec fn verb_module_spec(v: Verb) -> Seq<char> {
    match v {
        Verb::List => "list"@,
        Verb::Get => "get"@,
        Verb::Create => "create"@,
        Verb::Update => "update"@,
        Verb::Delete => "delete"@,
    }
}

/// Module name of a verb's flow.
pub fn verb_module(verb: Verb) -> (r: &'static str)
    ensures
        r@ == verb_module_spec(verb),
{
    match verb {
        Verb::List => "list",
        Verb::Get => "get",
        Verb::Create => "create",
        Verb::Update => "update",
        Verb::Delete => "delete",
    }
}

pub open spec fn verb_mod_line() -> spec_fn(Verb) -> Seq<char> {
    |v: Verb| "pub mod "@ + verb_module_spec(v) + ";\n"@
}

/// The per-resource barrel: one `pub mod` line per verb, in order.
pub fn barrel_body(verbs: &[Verb]) -> (r: String)
    ensures
        r@ == concat_map(verbs@, verb_mod_line()),
{
    let mut out = String::new();
    let mut i: usize = 0;
    assert(verbs@.take(0) =~= Seq::<Verb>::empty());
    while i < verbs.len()
        invariant
            i <= verbs@.len(),
            out@ == concat_map(verbs@.take(i as int), verb_mod_line()),
        decreases verbs@.len() - i,
    {
        out.append("pub mod ");
        out.append(verb_module(verbs[i]));
        out.append(";\n");
        proof {
            lemma_concat_map_step(verbs@, i as int, verb_mod_line());
        }
        i = i + 1;
    }
    proof {
        lemma_concat_map_all(verbs@, verb_mod_line());
    }
    out
}

/// The top barrel: one `pub mod` line per table, sorted.
pub fn render_top_barrel(tables: &[&str]) -> (r: String)
    ensures
        r@ == mod_lines_spec(tables@),
{
    render_data_barrel(tables)
}

/// The auth check a flow performs first (empty for public verbs). Roles
/// are listed once each, in lexicographic order.
pub open spec fn auth_check_spec(auth: AuthMode) -> Seq<char> {
    match auth {
        AuthMode::Public => Seq::<char>::empty(),
        AuthMode::AuthRequired => "ctx.require_session()?;"@,
        AuthMode::AdminOnly => "ctx.require_any(&[UserRole::Admin])?;"@,
        AuthMode::ScopedTo(field) => "ctx.require_session()?;\n// TODO(catalyst): verify resource."@ + field@
            + " matches session.user_id (needs catalyst scope-check API)"@,
        AuthMode::Roles(roles) => "ctx.require_any(&["@ + join(
            sorted_distinct(views(roles@)).map_values(|r: Seq<char>| "UserRole::"@ + pascal_case_spec(r)),
            ", "@,
        ) + "])?;"@,
    }
}

/// Auth check block of a verb's flow.
pub fn auth_check_block(auth: &AuthMode) -> (r: String)
    ensures
        r@ == auth_check_spec(*auth),
{
    match auth {
        AuthMode::Public => String::new(),
        AuthMode::AuthRequired => owned("ctx.require_session()?;"),
        AuthMode::AdminOnly => owned("ctx.require_any(&[UserRole::Admin])?;"),
        AuthMode::ScopedTo(field) => {
            let mut out = owned("ctx.require_session()?;\n// TODO(catalyst): verify resource.");
            out.append(field.as_str());
            out.append(" matches session.user_id (needs catalyst scope-check API)");
            out
        },
        AuthMode::Roles(roles) => {
            let mut copy: Vec<String> = Vec::new();
            let mut k: usize = 0;
            while k < roles.len()
                invariant
                    k <= roles@.len(),
                    views(copy@) == views(roles@.take(k as int)),
                decreases roles@.len() - k,
            {
                let ghost before = views(copy@);
                copy.push(owned(roles[k].as_str()));
                assert(views(copy@) =~= before.push(roles@[k as int]@));
                assert(views(roles@.take(k + 1)) =~= views(roles@.take(k as int)).push(roles@[k as int]@));
                k = k + 1;
            }
            assert(roles@.take(roles@.len() as int) =~= roles@);
            let sorted = sort_dedup_strings(copy);
            let ghost sv = views(sorted@);
            let mut parts: Vec<String> = Vec::new();
            let mut i: usize = 0;
            while i < sorted.len()
                invariant
                    i <= sorted@.len(),
                    sv == views(sorted@),
                    views(parts@) == sv.take(i as int).map_values(|r: Seq<char>| "UserRole::"@ + pascal_case_spec(r)),
                decreases sorted@.len() - i,
            {
                let mut p = owned("UserRole::");
                let pc = pascal_case(sorted[i].as_str());
                p.append(pc.as_str());
                let ghost before = views(parts@);
                let ghost pv = p@;
                parts.push(p);
                assert(views(parts@) =~= before.push(pv));
                assert(sv.take(i + 1).map_values(|r: Seq<char>| "UserRole::"@ + pascal_case_spec(r)) =~= sv.take(
                    i as int,
                ).map_values(|r: Seq<char>| "UserRole::"@ + pascal_case_spec(r)).push(pv));
                i = i + 1;
            }
            assert(sv.take(sorted@.len() as int) =~= sv);
            let j = join_strings(&parts, ", ");
            let mut out = owned("ctx.require_any(&[");
            out.append(j.as_str());
            out.append("])?;");
            out
        },
    }
}

/// `line` without one trailing carriage return.
pub open spec fn strip_cr(line: Seq<char>) -> Seq<char> {
    if line.len() > 0 && line.last() == '\r' {
        line.drop_last()
    } else {
        line
    }
}

/// Each line of `cur + s` (as `str::lines` splits it) prefixed with four
/// spaces and ended with a newline.
pub open spec fn indent_lines_from(s: Seq<char>, cur: Seq<char>) -> Seq<char>
    decreases s.len(),
{
    if s.len() == 0 {
        if cur.len() == 0 {
            seq![]
        } else {
            "    "@ + cur + "\n"@
        }
    } else if s[0] == '\n' {
        "    "@ + strip_cr(cur) + "\n"@ + indent_lines_from(s.drop_first(), seq![])
    } else {
        indent_lines_from(s.drop_first(), cur.push(s[0]))
    }
}

pub open spec fn indent_lines(s: Seq<char>) -> Seq<char> {
    indent_lines_from(s, seq![])
}

fn chars_to_string(cs: &Vec<char>) -> (r: String)
    ensures
        r@ == cs@,
{
    let mut out = String::new();
    let mut i: usize = 0;
    while i < cs.len()
        invariant
            i <= cs@.len(),
            out@ == cs@.take(i as int),
        decreases cs@.len() - i,
    {
        push_char(&mut out, cs[i]);
        assert(cs@.take(i + 1) =~= cs@.take(i as int).push(cs@[i as int]));
        i = i + 1;
    }
    assert(cs@.take(cs@.len() as int) =~= cs@);
    out
}

fn indent_block(s: &str) -> (r: String)
    ensures
        r@ == indent_lines(s@),
{
    let cs = chars_of(s);
    let mut out = String::new();
    let mut cur: Vec<char> = Vec::new();
    let mut i: usize = 0;
    assert(cs@.subrange(0, cs@.len() as int) =~= cs@);
    assert(cur@ =~= Seq::<char>::empty());
    while i < cs.len()
        invariant
            i <= cs@.len(),
            cs@ == s@,
            indent_lines(s@) == out@ + indent_lines_from(cs@.subrange(i as int, cs@.len() as int), cur@),
        decreases cs@.len() - i,
    {
        let c = cs[i];
        let ghost rest = cs@.subrange(i as int, cs@.len() as int);
        assert(rest.drop_first() =~= cs@.subrange(i + 1, cs@.len() as int));
        assert(rest[0] == c);
        if c == '\n' {
            if cur.len() > 0 && cur[cur.len() - 1] == '\r' {
                cur.pop();
            }
            let line = chars_to_string(&cur);
            out.append("    ");
            out.append(line.as_str());
            out.append("\n");
            cur = Vec::new();
            assert(cur@ =~= Seq::<char>::empty());
        } else {
            cur.push(c);
        }
        i = i + 1;
    }
    assert(cs@.subrange(i as int, cs@.len() as int) =~= Seq::<char>::empty());
    if cur.len() > 0 {
        let line = chars_to_string(&cur);
        out.append("    ");
        out.append(line.as_str());
        out.append("\n");
    }
    out
}

/// (extra parameters, return type, routine call) of a verb's flow.
pub open spec fn verb_signature_spec(v: Verb, stem: Seq<char>) -> (Seq<char>, Seq<char>, Seq<char>) {
    match v {
        Verb::List => (
            ", query: crate::structs::list_query::ListQuery"@,
            "crate::structs::list_query::ListResponse<"@ + stem + "Public>"@,
            "list::run(ctx, query.clone())"@,
        ),
        Verb::Get => (", id: i64"@, stem + "Public"@, "get::run(ctx, id)"@),
        Verb::Create => (", input: "@ + stem + "Insertable"@, stem + "Public"@, "create::run(ctx, input.clone())"@),
        Verb::Update => (
            ", id: i64, patch: "@ + stem + "Patch"@,
            stem + "Public"@,
            "update::run(ctx, id, patch.clone())"@,
        ),
        Verb::Delete => (", id: i64"@, "()"@, "delete::run(ctx, id)"@),
    }
}

fn cat(a: &str, b: &str, c: &str) -> (r: String)
    ensures
        r@ == a@ + b@ + c@,
{
    let mut s = owned(a);
    s.append(b);
    s.append(c);
    s
}

fn verb_signature(verb: Verb, stem: &str) -> (r: (String, String, String))
    ensures
        (r.0@, r.1@, r.2@) == verb_signature_spec(verb, stem@),
{
    proof {
        reveal_strlit("");
    }
    match verb {
        Verb::List => (
            owned(", query: crate::structs::list_query::ListQuery"),
            cat("crate::structs::list_query::ListResponse<", stem, "Public>"),
            owned("list::run(ctx, query.clone())"),
        ),
        Verb::Get => (owned(", id: i64"), cat(stem, "Public", ""), owned("get::run(ctx, id)")),
        Verb::Create => (cat(", input: ", stem, "Insertable"), cat(stem, "Public", ""), owned("create::run(ctx, input.clone())")),
        Verb::Update => (
            cat(", id: i64, patch: ", stem, "Patch"),
            cat(stem, "Public", ""),
            owned("update::run(ctx, id, patch.clone())"),
        ),
        Verb::Delete => (owned(", id: i64"), owned("()"), owned("delete::run(ctx, id)")),
    }
}

/// The flow module of one verb of a table.
pub open spec fn verb_stub_spec(table: Seq<char>, v: Verb, auth: AuthMode) -> Seq<char> {
    let stem = pascal_case_spec(singularize_spec(table));
    let sig = verb_signature_spec(v, stem);
    "use crate::crank::Crank;\nuse crate::meltdown::MeltDown;\nuse crate::routines;\n"@ + (if auth is AdminOnly
        || auth is Roles {
        "use crate::structs::UserRole;\n"@
    } else {
        Seq::<char>::empty()
    }) + (if v != Verb::Delete {
        "use crate::structs::generated::"@ + table + "::*;\n"@
    } else {
        Seq::<char>::empty()
    }) + "use crate::Ctx;\n\npub async fn run(ctx: &Ctx"@ + sig.0 + ") -> Result<"@ + sig.1 + ", MeltDown> {\n"@
        + indent_lines(auth_check_spec(auth)) + "    Crank::none().run(|| routines::generated::"@ + table + "::"@
        + sig.2 + ").await\n}\n"@
}

/// Source of the flow module of one verb.
pub fn verb_stub_body(table: &str, verb: Verb, auth: &AuthMode) -> (r: String)
    ensures
        r@ == verb_stub_spec(table@, verb, *auth),
{
    let auth_block = auth_check_block(auth);
    let singular = singularize(table);
    let stem = pascal_case(singular.as_str());
    let (args_sig, ret_ty, routine_call) = verb_signature(verb, stem.as_str());
    let mut out = owned("use crate::crank::Crank;\nuse crate::meltdown::MeltDown;\nuse crate::routines;\n");
    let ghost a = out@;
    match auth {
        AuthMode::AdminOnly | AuthMode::Roles(_) => {
            out.append("use crate::structs::UserRole;\n");
        },
        _ => {},
    }
    let ghost b = out@;
    if verb != Verb::Delete {
        out.append("use crate::structs::generated::");
        out.append(table);
        out.append("::*;\n");
    }
    let ghost c = out@;
    out.append("use crate::Ctx;\n\npub async fn run(ctx: &Ctx");
    out.append(args_sig.as_str());
    out.append(") -> Result<");
    out.append(ret_ty.as_str());
    out.append(", MeltDown> {\n");
    let indented = indent_block(auth_block.as_str());
    out.append(indented.as_str());
    out.append("    Crank::none().run(|| routines::generated::");
    out.append(table);
    out.append("::");
    out.append(routine_call.as_str());
    out.append(").await\n}\n");
    proof {
        reveal_strlit("");
    }
    assert(out@ =~= verb_stub_spec(table@, verb, *auth));
    out
}

pub open spec fn flow_file_spec(table: Seq<char>) -> spec_fn((Verb, VerbState)) -> (Seq<char>, Seq<char>) {
    |e: (Verb, VerbState)| (verb_module_spec(e.0) + ".rs"@, verb_stub_spec(table, e.0, e.1.auth))
}

/// (file name, body) of every flow file of a resource: the barrel, then
/// one module per declared verb in declaration order.
pub open spec fn flow_files_spec(r: ResourceState) -> Seq<(Seq<char>, Seq<char>)> {
    seq![("mod.rs"@, concat_map(r.verbs@.map_values(|e: (Verb, VerbState)| e.0), verb_mod_line()))]
        + r.verbs@.map_values(flow_file_spec(r.name@))
}

pub open spec fn file_pairs(v: Seq<(String, String)>) -> Seq<(Seq<char>, Seq<char>)> {
    v.map_values(|p: (String, String)| (p.0@, p.1@))
}

/// The flow files of one resource (without the generated-file marker).
pub fn resource_flow_files(resource: &ResourceState) -> (r: Vec<(String, String)>)
    ensures
        file_pairs(r@) == flow_files_spec(*resource),
{
    let table = resource.name.as_str();
    let mut verbs: Vec<Verb> = Vec::new();
    let mut i: usize = 0;
    while i < resource.verbs.len()
        invariant
            i <= resource.verbs@.len(),
            verbs@ == resource.verbs@.take(i as int).map_values(|e: (Verb, VerbState)| e.0),
        decreases resource.verbs@.len() - i,
    {
        verbs.push(resource.verbs[i].0);
        assert(resource.verbs@.take(i + 1).map_values(|e: (Verb, VerbState)| e.0) =~= resource.verbs@.take(
            i as int,
        ).map_values(|e: (Verb, VerbState)| e.0).push(resource.verbs@[i as int].0));
        i = i + 1;
    }
    assert(resource.verbs@.take(resource.verbs@.len() as int) =~= resource.verbs@);
    let mut out: Vec<(String, String)> = Vec::new();
    out.push((owned("mod.rs"), barrel_body(verbs.as_slice())));
    let ghost g = flow_file_spec(resource.name@);
    let mut k: usize = 0;
    while k < resource.verbs.len()
        invariant
            k <= resource.verbs@.len(),
            g == flow_file_spec(resource.name@),
            table@ == resource.name@,
            file_pairs(out@) == seq![("mod.rs"@, concat_map(resource.verbs@.map_values(|e: (Verb, VerbState)| e.0), verb_mod_line()))]
                + resource.verbs@.take(k as int).map_values(g),
        decreases resource.verbs@.len() - k,
    {
        let v = resource.verbs[k].0;
        let name = cat(verb_module(v), ".rs", "");
        let body = verb_stub_body(table, v, &resource.verbs[k].1.auth);
        let ghost before = file_pairs(out@);
        let ghost pv = (name@, body@);
        out.push((name, body));
        proof {
            reveal_strlit("");
            assert(file_pairs(out@) =~= before.push(pv));
            assert(resource.verbs@.take(k + 1).map_values(g) =~= resource.verbs@.take(k as int).map_values(g).push(
                g(resource.verbs@[k as int]),
            ));
        }
        k = k + 1;
    }
    assert(resource.verbs@.take(resource.verbs@.len() as int) =~= resource.verbs@);
    out
}


/// Each file of `files` moved under directory `dir`.
pub open spec fn under_dir(dir: Seq<char>, files: Seq<(Seq<char>, Seq<char>)>) -> Seq<(Seq<char>, Seq<char>)> {
    files.map_values(|p: (Seq<char>, Seq<char>)| (dir + "/"@ + p.0, p.1))
}

/// The flow files of the resources in order, each under its table's directory.
pub open spec fn flows_of(rs: Seq<ResourceState>) -> Seq<(Seq<char>, Seq<char>)>
    decreases rs.len(),
{
    if rs.len() == 0 {
        seq![]
    } else {
        flows_of(rs.drop_last()) + under_dir(rs.last().name@, flow_files_spec(rs.last()))
    }
}

/// The files of `flows/generated/`: nothing when no resource is generated to
/// routes; otherwise each such resource's flow files under `<table>/`, then
/// the top barrel.
pub open spec fn plan_spec(rs: Seq<ResourceState>) -> Seq<(Seq<char>, Seq<char>)> {
    let kept = at_level(rs, GenLevel::Route);
    if kept.len() == 0 {
        seq![]
    } else {
        flows_of(kept) + seq![("mod.rs"@, concat_map(kept.map_values(|r: ResourceState| r.name@).sort_by(lex()), mod_line()))]
    }
}

/// The files the flows pass writes, bodies without markers.
pub fn plan_files(resources: Vec<ResourceState>) -> (r: Vec<(String, String)>)
    ensures
        file_pairs(r@) == plan_spec(resources@),
{
    let kept = resources_at_level(resources, GenLevel::Route);
    let mut out: Vec<(String, String)> = Vec::new();
    if kept.len() == 0 {
        assert(file_pairs(out@) =~= plan_spec(resources@));
        return out;
    }
    let mut tables: Vec<&str> = Vec::new();
    let mut i: usize = 0;
    assert(kept@.take(0) =~= Seq::<ResourceState>::empty());
    while i < kept.len()
        invariant
            i <= kept.len(),
            file_pairs(out@) == flows_of(kept@.take(i as int)),
            str_views(tables@) == kept@.take(i as int).map_values(|r: ResourceState| r.name@),
        decreases kept.len() - i,
    {
        let ghost t = kept@.take(i + 1);
        assert(t.drop_last() =~= kept@.take(i as int));
        assert(t.last() == kept@[i as int]);
        let r = &kept[i];
        let files = resource_flow_files(r);
        let ghost base = file_pairs(out@);
        let ghost fs = flow_files_spec(*r);
        let mut k: usize = 0;
        assert(file_pairs(out@) =~= base + under_dir(r.name@, fs.take(0)));
        while k < files.len()
            invariant
                k <= files.len(),
                file_pairs(files@) == fs,
                file_pairs(out@) == base + under_dir(r.name@, fs.take(k as int)),
            decreases files.len() - k,
        {
            let mut name = owned(r.name.as_str());
            name.append("/");
            name.append(files[k].0.as_str());
            let body = owned(files[k].1.as_str());
            let ghost before = file_pairs(out@);
            let ghost pv = (name@, body@);
            out.push((name, body));
            assert(file_pairs(out@) =~= before.push(pv));
            assert(fs[k as int] == (files@[k as int].0@, files@[k as int].1@));
            assert(under_dir(r.name@, fs.take(k + 1)) =~= under_dir(r.name@, fs.take(k as int)).push(pv));
            k = k + 1;
        }
        assert(fs.take(k as int) =~= fs);
        let ghost tb = str_views(tables@);
        tables.push(r.name.as_str());
        assert(str_views(tables@) =~= tb.push(r.name@));
        assert(kept@.take(i + 1).map_values(|r: ResourceState| r.name@) =~= kept@.take(i as int).map_values(
            |r: ResourceState| r.name@,
        ).push(r.name@));
        i = i + 1;
    }
    assert(kept@.take(i as int) =~= kept@);
    let barrel = render_top_barrel(tables.as_slice());
    let ghost before = file_pairs(out@);
    let ghost bv = barrel@;
    out.push((owned("mod.rs"), barrel));
    assert(file_pairs(out@) =~= before.push(("mod.rs"@, bv)));
    out
}

} // verus!
