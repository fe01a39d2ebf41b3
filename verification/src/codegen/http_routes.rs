//! Axum HTTP handlers and routers: one module per resource, a barrel and
//! the top router nesting each resource under `/<table>`.
use vstd::prelude::*;
use vstd::string::*;
use crate::codegen::naming::{pascal_case, pascal_case_spec, singularize, singularize_spec};
use crate::state::{verb_lookup, Field, FieldKind, GenLevel, ResourceState, SessionFieldRef, Verb, VerbState};
use crate::codegen::flows::file_pairs;
use crate::codegen::pipeline::{at_level, resources_at_level};
use crate::text::{
    concat_map, join, join_strings, lemma_concat_map_all, lemma_concat_map_step, lex, owned, sort_dedup_strings,
    sort_strings, sorted_distinct, views,
};

verus! {

/// Files a generator run wrote and files it left unchanged.
pub struct EmitReport {
    pub written: Vec<String>,
    pub skipped: Vec<String>,
}

impl EmitReport {
    pub fn new() -> (r: Self)
        ensures
            r.written@.len() == 0,
            r.skipped@.len() == 0,
    {
        EmitReport { written: Vec::new(), skipped: Vec::new() }
    }
}

/// `GET /`: one page of records.
pub open spec fn list_handler_spec(ty: Seq<char>) -> Seq<char> {
    "pub async fn list(\n    Extension(ctx): Extension<Ctx>,\n    params: ListQuery,\n) -> Result<Json<ListResponse<"@
        + ty
        + "Public>>, MeltDown> {\n    let result = flow::list::run(&ctx, params).await?;\n    Ok(Json(result))\n}\n"@
}

fn list_handler(ty: &str) -> (r: String)
    ensures
        r@ == list_handler_spec(ty@),
{
    let mut out = owned("pub async fn list(\n    Extension(ctx): Extension<Ctx>,\n    params: ListQuery,\n) -> Result<Json<ListResponse<");
    out.append(ty);
    out.append("Public>>, MeltDown> {\n    let result = flow::list::run(&ctx, params).await?;\n    Ok(Json(result))\n}\n");
    out
}

/// `GET /:id`.
pub open spec fn get_handler_spec(ty: Seq<char>) -> Seq<char> {
    "pub async fn get_one(\n    Extension(ctx): Extension<Ctx>,\n    Path(id): Path<i64>,\n) -> Result<Json<"@
        + ty
        + "Public>, MeltDown> {\n    let result = flow::get::run(&ctx, id).await?;\n    Ok(Json(result))\n}\n"@
}

fn get_handler(ty: &str) -> (r: String)
    ensures
        r@ == get_handler_spec(ty@),
{
    let mut out = owned("pub async fn get_one(\n    Extension(ctx): Extension<Ctx>,\n    Path(id): Path<i64>,\n) -> Result<Json<");
    out.append(ty);
    out.append("Public>, MeltDown> {\n    let result = flow::get::run(&ctx, id).await?;\n    Ok(Json(result))\n}\n");
    out
}

/// `POST /`: session-filled fields are set from the session before validation.
pub open spec fn create_handler_spec(ty: Seq<char>, inj: Seq<char>, validators: bool) -> Seq<char> {
    "pub async fn create(\n    Extension(ctx): Extension<Ctx>,\n    Json("@
        + (if inj.len() == 0 { "input"@ } else { "mut input"@ })
        + "): Json<"@
        + ty
        + "Insertable>,\n) -> Result<(StatusCode, Json<"@
        + ty
        + "Public>), MeltDown> {\n"@
        + inj
        + (if validators { "    input.check()?;\n"@ } else { Seq::<char>::empty() })
        + "    let result = flow::create::run(&ctx, input).await?;\n    Ok((StatusCode::CREATED, Json(result)))\n}\n"@
}

fn create_handler(ty: &str, injections: &str, validators: bool) -> (r: String)
    ensures
        r@ == create_handler_spec(ty@, injections@, validators),
{
    let validator = if validators { "    input.check()?;\n" } else { "" };
    let input_pat = if injections.unicode_len() == 0 { "input" } else { "mut input" };
    proof {
        reveal_strlit("");
    }
    let mut out = owned("pub async fn create(\n    Extension(ctx): Extension<Ctx>,\n    Json(");
    out.append(input_pat);
    out.append("): Json<");
    out.append(ty);
    out.append("Insertable>,\n) -> Result<(StatusCode, Json<");
    out.append(ty);
    out.append("Public>), MeltDown> {\n");
    out.append(injections);
    out.append(validator);
    out.append("    let result = flow::create::run(&ctx, input).await?;\n    Ok((StatusCode::CREATED, Json(result)))\n}\n");
    out
}

/// `PATCH /:id`.
pub open spec fn update_handler_spec(ty: Seq<char>, validators: bool) -> Seq<char> {
    "pub async fn update(\n    Extension(ctx): Extension<Ctx>,\n    Path(id): Path<i64>,\n    Json(patch): Json<"@
        + ty
        + "Patch>,\n) -> Result<Json<"@
        + ty
        + "Public>, MeltDown> {\n"@
        + (if validators { "    patch.check()?;\n"@ } else { Seq::<char>::empty() })
        + "    let result = flow::update::run(&ctx, id, patch).await?;\n    Ok(Json(result))\n}\n"@
}

fn update_handler(ty: &str, validators: bool) -> (r: String)
    ensures
        r@ == update_handler_spec(ty@, validators),
{
    let validator = if validators { "    patch.check()?;\n" } else { "" };
    proof {
        reveal_strlit("");
    }
    let mut out = owned("pub async fn update(\n    Extension(ctx): Extension<Ctx>,\n    Path(id): Path<i64>,\n    Json(patch): Json<");
    out.append(ty);
    out.append("Patch>,\n) -> Result<Json<");
    out.append(ty);
    out.append("Public>, MeltDown> {\n");
    out.append(validator);
    out.append("    let result = flow::update::run(&ctx, id, patch).await?;\n    Ok(Json(result))\n}\n");
    out
}

/// `DELETE /:id`.
pub const DELETE_HANDLER: &'static str = "pub async fn delete_one(\n    Extension(ctx): Extension<Ctx>,\n    Path(id): Path<i64>,\n) -> Result<StatusCode, MeltDown> {\n    flow::delete::run(&ctx, id).await?;\n    Ok(StatusCode::NO_CONTENT)\n}\n";

/// The verb is declared with a REST endpoint.
pub open spec fn emits_rest(r: ResourceState, v: Verb) -> bool {
    verb_lookup(r.verbs@, v) matches Some(st) && st.emit_rest_api
}

fn verb_emits_rest(r: &ResourceState, v: Verb) -> (b: bool)
    ensures
        b == emits_rest(*r, v),
{
    match r.verb_state(v) {
        Some(state) => state.emit_rest_api,
        None => false,
    }
}

pub open spec fn session_accessor(s: SessionFieldRef) -> Seq<char> {
    match s {
        SessionFieldRef::UserId => "user_id"@,
        SessionFieldRef::SessionId => "session_id"@,
    }
}

pub open spec fn injection_line() -> spec_fn(Field) -> Seq<char> {
    |f: Field| match f.1.kind {
        FieldKind::FromSession(scope) => "    input."@ + f.0@ + " = ctx.require_session()?."@ + session_accessor(scope)
            + ";\n"@,
        _ => Seq::<char>::empty(),
    }
}

/// Assignments of every session-filled field from the session.
pub open spec fn injections_spec(r: ResourceState) -> Seq<char> {
    concat_map(r.fields@, injection_line())
}

fn session_injections(r: &ResourceState) -> (out: String)
    ensures
        out@ == injections_spec(*r),
{
    let mut out = String::new();
    let mut i: usize = 0;
    assert(r.fields@.take(0) =~= Seq::<Field>::empty());
    while i < r.fields.len()
        invariant
            i <= r.fields@.len(),
            out@ == concat_map(r.fields@.take(i as int), injection_line()),
        decreases r.fields@.len() - i,
    {
        let ghost before = out@;
        match &r.fields[i].1.kind {
            FieldKind::FromSession(scope) => {
                let accessor = match scope {
                    SessionFieldRef::UserId => "user_id",
                    SessionFieldRef::SessionId => "session_id",
                };
                out.append("    input.");
                out.append(r.fields[i].0.as_str());
                out.append(" = ctx.require_session()?.");
                out.append(accessor);
                out.append(";\n");
            },
            _ => {},
        }
        proof {
            lemma_concat_map_step(r.fields@, i as int, injection_line());
            assert(out@ =~= before + injection_line()(r.fields@[i as int]));
        }
        i = i + 1;
    }
    proof {
        lemma_concat_map_all(r.fields@, injection_line());
    }
    out
}

/// The type stem of a table (`users` -> `User`).
pub open spec fn http_type_spec(table: Seq<char>) -> Seq<char> {
    pascal_case_spec(singularize_spec(table))
}

/// The resource has a create or update endpoint and its generation level
/// includes types, so payloads are validated.
pub open spec fn validators_on(r: ResourceState) -> bool {
    r.gen_level.rank() >= GenLevel::Types.rank() && (emits_rest(r, Verb::Create) || emits_rest(r, Verb::Update))
}

pub open spec fn handler_spec(v: Verb, r: ResourceState) -> Seq<char> {
    let ty = http_type_spec(r.name@);
    match v {
        Verb::List => list_handler_spec(ty),
        Verb::Get => get_handler_spec(ty),
        Verb::Create => create_handler_spec(ty, injections_spec(r), validators_on(r)),
        Verb::Update => update_handler_spec(ty, validators_on(r)),
        Verb::Delete => DELETE_HANDLER@,
    }
}

fn handler_for_verb(verb: Verb, r: &ResourceState, ty: &str, validators: bool) -> (out: String)
    requires
        ty@ == http_type_spec(r.name@),
        validators == validators_on(*r),
    ensures
        out@ == handler_spec(verb, *r),
{
    match verb {
        Verb::List => list_handler(ty),
        Verb::Get => get_handler(ty),
        Verb::Create => {
            let inj = session_injections(r);
            create_handler(ty, inj.as_str(), validators)
        },
        Verb::Update => update_handler(ty, validators),
        Verb::Delete => owned(DELETE_HANDLER),
    }
}

pub open spec fn handler_piece(r: ResourceState) -> spec_fn((Verb, VerbState)) -> Seq<char> {
    |e: (Verb, VerbState)| if e.1.emit_rest_api {
        handler_spec(e.0, r) + "\n"@
    } else {
        Seq::<char>::empty()
    }
}

/// `get(a).post(b)...` over the enabled (method, handler) pairs; none
/// when no pair is enabled.
pub open spec fn chain_spec(entries: Seq<(bool, Seq<char>, Seq<char>)>) -> Option<Seq<char>>
    decreases entries.len(),
{
    if entries.len() == 0 {
        None
    } else {
        let e = entries.last();
        let prev = chain_spec(entries.drop_last());
        if !e.0 {
            prev
        } else {
            match prev {
                None => Some(e.1 + "("@ + e.2 + ")"@),
                Some(acc) => Some(acc + "."@ + e.1 + "("@ + e.2 + ")"@),
            }
        }
    }
}

pub open spec fn opt_view(o: Option<String>) -> Option<Seq<char>> {
    match o {
        Some(s) => Some(s@),
        None => None,
    }
}

fn push_link(acc: Option<String>, method: &str, handler: &str) -> (r: Option<String>)
    ensures
        opt_view(r) == Some(match acc {
            None => method@ + "("@ + handler@ + ")"@,
            Some(a) => a@ + "."@ + method@ + "("@ + handler@ + ")"@,
        }),
{
    match acc {
        None => {
            let mut s = owned(method);
            s.append("(");
            s.append(handler);
            s.append(")");
            Some(s)
        },
        Some(mut a) => {
            a.append(".");
            a.append(method);
            a.append("(");
            a.append(handler);
            a.append(")");
            Some(a)
        },
    }
}

fn chain_step(acc: Option<String>, enabled: bool, method: &str, handler: &str, Ghost(es): Ghost<Seq<(bool, Seq<char>, Seq<char>)>>, Ghost(k): Ghost<int>) -> (r: Option<String>)
    requires
        0 <= k < es.len(),
        es[k] == (enabled, method@, handler@),
        opt_view(acc) == chain_spec(es.take(k)),
    ensures
        opt_view(r) == chain_spec(es.take(k + 1)),
{
    assert(es.take(k + 1).drop_last() =~= es.take(k));
    assert(es.take(k + 1).last() == es[k]);
    if enabled {
        push_link(acc, method, handler)
    } else {
        acc
    }
}

pub open spec fn collection_entries(r: ResourceState) -> Seq<(bool, Seq<char>, Seq<char>)> {
    seq![(emits_rest(r, Verb::List), "get"@, "list"@), (emits_rest(r, Verb::Create), "post"@, "create"@)]
}

pub open spec fn item_entries(r: ResourceState) -> Seq<(bool, Seq<char>, Seq<char>)> {
    seq![
        (emits_rest(r, Verb::Get), "get"@, "get_one"@),
        (emits_rest(r, Verb::Update), "patch"@, "update"@),
        (emits_rest(r, Verb::Delete), "delete"@, "delete_one"@),
    ]
}

fn collection_chain(r: &ResourceState) -> (c: Option<String>)
    ensures
        opt_view(c) == chain_spec(collection_entries(*r)),
{
    let ghost es = collection_entries(*r);
    assert(es.take(0) =~= Seq::<(bool, Seq<char>, Seq<char>)>::empty());
    let acc = chain_step(None, verb_emits_rest(r, Verb::List), "get", "list", Ghost(es), Ghost(0));
    let acc = chain_step(acc, verb_emits_rest(r, Verb::Create), "post", "create", Ghost(es), Ghost(1));
    assert(es.take(2) =~= es);
    acc
}

fn item_chain(r: &ResourceState) -> (c: Option<String>)
    ensures
        opt_view(c) == chain_spec(item_entries(*r)),
{
    let ghost es = item_entries(*r);
    assert(es.take(0) =~= Seq::<(bool, Seq<char>, Seq<char>)>::empty());
    let acc = chain_step(None, verb_emits_rest(r, Verb::Get), "get", "get_one", Ghost(es), Ghost(0));
    let acc = chain_step(acc, verb_emits_rest(r, Verb::Update), "patch", "update", Ghost(es), Ghost(1));
    let acc = chain_step(acc, verb_emits_rest(r, Verb::Delete), "delete", "delete_one", Ghost(es), Ghost(2));
    assert(es.take(3) =~= es);
    acc
}

/// The per-resource router: a `/` route for list/create and a `/:id` route
/// for get/update/delete, each present only with a method.
pub open spec fn router_fn_spec(r: ResourceState) -> Seq<char> {
    "pub fn router() -> Router<Ctx> {\n    let mut router = Router::new();\n"@ + match chain_spec(collection_entries(r)) {
        Some(c) => "    router = router.route(\"/\", "@ + c + ");\n"@,
        None => Seq::<char>::empty(),
    } + match chain_spec(item_entries(r)) {
        Some(c) => "    router = router.route(\"/:id\", "@ + c + ");\n"@,
        None => Seq::<char>::empty(),
    } + "    router\n}\n"@
}

fn router_fn(r: &ResourceState) -> (out: String)
    ensures
        out@ == router_fn_spec(*r),
{
    let mut out = owned("pub fn router() -> Router<Ctx> {\n    let mut router = Router::new();\n");
    let ghost a = out@;
    match collection_chain(r) {
        Some(chain) => {
            out.append("    router = router.route(\"/\", ");
            out.append(chain.as_str());
            out.append(");\n");
        },
        None => {},
    }
    let ghost b = out@;
    match item_chain(r) {
        Some(chain) => {
            out.append("    router = router.route(\"/:id\", ");
            out.append(chain.as_str());
            out.append(");\n");
        },
        None => {},
    }
    let ghost c = out@;
    out.append("    router\n}\n");
    assert(out@ =~= router_fn_spec(*r));
    out
}

/// The routing helpers the resource module imports: the first enabled
/// method of each route, sorted and de-duplicated.
pub open spec fn routing_heads(r: ResourceState) -> Seq<Seq<char>> {
    let coll: Seq<Seq<char>> = if emits_rest(r, Verb::List) {
        seq!["get"@]
    } else if emits_rest(r, Verb::Create) {
        seq!["post"@]
    } else {
        seq![]
    };
    let item: Seq<Seq<char>> = if emits_rest(r, Verb::Get) {
        seq!["get"@]
    } else if emits_rest(r, Verb::Update) {
        seq!["patch"@]
    } else if emits_rest(r, Verb::Delete) {
        seq!["delete"@]
    } else {
        seq![]
    };
    sorted_distinct(coll + item)
}

fn collect_routing_head_idents(r: &ResourceState) -> (out: Vec<String>)
    ensures
        views(out@) == routing_heads(*r),
{
    let mut heads: Vec<String> = Vec::new();
    if verb_emits_rest(r, Verb::List) {
        heads.push(owned("get"));
    } else if verb_emits_rest(r, Verb::Create) {
        heads.push(owned("post"));
    }
    let ghost a = views(heads@);
    if verb_emits_rest(r, Verb::Get) {
        heads.push(owned("get"));
    } else if verb_emits_rest(r, Verb::Update) {
        heads.push(owned("patch"));
    } else if verb_emits_rest(r, Verb::Delete) {
        heads.push(owned("delete"));
    }
    proof {
        let coll: Seq<Seq<char>> = if emits_rest(*r, Verb::List) {
            seq!["get"@]
        } else if emits_rest(*r, Verb::Create) {
            seq!["post"@]
        } else {
            seq![]
        };
        let item: Seq<Seq<char>> = if emits_rest(*r, Verb::Get) {
            seq!["get"@]
        } else if emits_rest(*r, Verb::Update) {
            seq!["patch"@]
        } else if emits_rest(*r, Verb::Delete) {
            seq!["delete"@]
        } else {
            seq![]
        };
        assert(views(heads@) =~= coll + item);
    }
    sort_dedup_strings(heads)
}

pub open spec fn routing_use_spec(heads: Seq<Seq<char>>) -> Seq<char> {
    if heads.len() == 0 {
        Seq::<char>::empty()
    } else if heads.len() == 1 {
        "use axum::routing::"@ + heads[0] + ";\n"@
    } else {
        "use axum::routing::{"@ + join(heads, ", "@) + "};\n"@
    }
}

fn routing_use(heads: &Vec<String>) -> (out: String)
    ensures
        out@ == routing_use_spec(views(heads@)),
{
    if heads.len() == 0 {
        String::new()
    } else if heads.len() == 1 {
        let mut s = owned("use axum::routing::");
        s.append(heads[0].as_str());
        s.append(";\n");
        s
    } else {
        let j = join_strings(heads, ", ");
        let mut s = owned("use axum::routing::{");
        s.append(j.as_str());
        s.append("};\n");
        s
    }
}

/// The `use` block of a resource module.
pub open spec fn resource_head_spec(r: ResourceState) -> Seq<char> {
    let ty = http_type_spec(r.name@);
    "use axum::extract::Path;\nuse axum::http::StatusCode;\n"@ + routing_use_spec(routing_heads(r))
        + "use axum::{Extension, Json, Router};\nuse crate::Ctx;\nuse crate::meltdown::MeltDown;\nuse crate::structs::list_query::{ListQuery, ListResponse};\n\nuse crate::flows::generated::"@
        + r.name@ + " as flow;\nuse crate::structs::generated::"@ + r.name@ + "::{"@ + ty + "Public"@ + (if emits_rest(
        r,
        Verb::Create,
    ) {
        ", "@ + ty + "Insertable"@
    } else {
        Seq::<char>::empty()
    }) + (if emits_rest(r, Verb::Update) { ", "@ + ty + "Patch"@ } else { Seq::<char>::empty() }) + "};\n"@
        + (if validators_on(r) { "use crate::structs::vendored::validators::Validate;\n"@ } else { Seq::<char>::empty() })
        + "\n"@
}

fn resource_head(r: &ResourceState, ty: &str) -> (out: String)
    requires
        ty@ == http_type_spec(r.name@),
    ensures
        out@ == resource_head_spec(*r),
{
    let table = r.name.as_str();
    let heads = collect_routing_head_idents(r);
    let ru = routing_use(&heads);
    let mut out = owned("use axum::extract::Path;\nuse axum::http::StatusCode;\n");
    out.append(ru.as_str());
    out.append("use axum::{Extension, Json, Router};\nuse crate::Ctx;\nuse crate::meltdown::MeltDown;\nuse crate::structs::list_query::{ListQuery, ListResponse};\n\nuse crate::flows::generated::");
    out.append(table);
    out.append(" as flow;\nuse crate::structs::generated::");
    out.append(table);
    out.append("::{");
    out.append(ty);
    out.append("Public");
    let ghost a = out@;
    if verb_emits_rest(r, Verb::Create) {
        out.append(", ");
        out.append(ty);
        out.append("Insertable");
    }
    let ghost b = out@;
    if verb_emits_rest(r, Verb::Update) {
        out.append(", ");
        out.append(ty);
        out.append("Patch");
    }
    let ghost c = out@;
    out.append("};\n");
    if r.gen_level.at_least(GenLevel::Types) && (verb_emits_rest(r, Verb::Create) || verb_emits_rest(r, Verb::Update)) {
        out.append("use crate::structs::vendored::validators::Validate;\n");
    }
    let ghost d = out@;
    out.append("\n");
    assert(out@ =~= resource_head_spec(*r));
    out
}

/// A resource's handler module: imports, one handler per REST verb in
/// declaration order (each followed by a blank line), then its router.
pub open spec fn resource_file_spec(r: ResourceState) -> Seq<char> {
    resource_head_spec(r) + concat_map(r.verbs@, handler_piece(r)) + router_fn_spec(r)
}

/// `transport/http/generated/<table>.rs` (without the generated marker).
pub fn build_resource_file(r: &ResourceState) -> (out: String)
    ensures
        out@ == resource_file_spec(*r),
{
    let singular = singularize(r.name.as_str());
    let ty = pascal_case(singular.as_str());
    let validators = r.gen_level.at_least(GenLevel::Types) && (verb_emits_rest(r, Verb::Create) || verb_emits_rest(
        r,
        Verb::Update,
    ));
    let mut out = resource_head(r, ty.as_str());
    let ghost head = out@;
    let ghost g = handler_piece(*r);
    let mut i: usize = 0;
    assert(r.verbs@.take(0) =~= Seq::<(Verb, VerbState)>::empty());
    while i < r.verbs.len()
        invariant
            i <= r.verbs@.len(),
            g == handler_piece(*r),
            ty@ == http_type_spec(r.name@),
            validators == validators_on(*r),
            out@ == head + concat_map(r.verbs@.take(i as int), g),
        decreases r.verbs@.len() - i,
    {
        let ghost before = out@;
        if r.verbs[i].1.emit_rest_api {
            let h = handler_for_verb(r.verbs[i].0, r, ty.as_str(), validators);
            out.append(h.as_str());
            out.append("\n");
        }
        proof {
            lemma_concat_map_step(r.verbs@, i as int, g);
            assert(out@ =~= before + g(r.verbs@[i as int]));
        }
        i = i + 1;
    }
    proof {
        lemma_concat_map_all(r.verbs@, g);
    }
    let rf = router_fn(r);
    out.append(rf.as_str());
    out
}

/// Table names of the resources, sorted.
pub open spec fn sorted_tables(rs: Seq<ResourceState>) -> Seq<Seq<char>> {
    rs.map_values(|r: ResourceState| r.name@).sort_by(lex())
}

fn table_names_sorted(resources: &[ResourceState]) -> (r: Vec<String>)
    ensures
        views(r@) == sorted_tables(resources@),
{
    let mut v: Vec<String> = Vec::new();
    let mut i: usize = 0;
    while i < resources.len()
        invariant
            i <= resources@.len(),
            views(v@) == resources@.take(i as int).map_values(|r: ResourceState| r.name@),
        decreases resources@.len() - i,
    {
        let ghost before = views(v@);
        v.push(owned(resources[i].name.as_str()));
        assert(views(v@) =~= before.push(resources@[i as int].name@));
        assert(resources@.take(i + 1).map_values(|r: ResourceState| r.name@) =~= resources@.take(i as int).map_values(
            |r: ResourceState| r.name@,
        ).push(resources@[i as int].name@));
        i = i + 1;
    }
    assert(resources@.take(resources@.len() as int) =~= resources@);
    sort_strings(v)
}

pub open spec fn http_mod_line() -> spec_fn(Seq<char>) -> Seq<char> {
    |t: Seq<char>| "pub mod "@ + t + ";\n"@
}

pub open spec fn nest_line() -> spec_fn(Seq<char>) -> Seq<char> {
    |t: Seq<char>| "    router = router.nest(\"/"@ + t + "\", super::"@ + t + "::router());\n"@
}

fn lines_over(names: &Vec<String>, nest: bool) -> (out: String)
    ensures
        out@ == concat_map(views(names@), if nest { nest_line() } else { http_mod_line() }),
{
    let ghost vs = views(names@);
    let ghost g = if nest { nest_line() } else { http_mod_line() };
    let mut out = String::new();
    let mut i: usize = 0;
    assert(vs.take(0) =~= Seq::<Seq<char>>::empty());
    while i < names.len()
        invariant
            i <= names@.len(),
            vs == views(names@),
            g == if nest { nest_line() } else { http_mod_line() },
            out@ == concat_map(vs.take(i as int), g),
        decreases names@.len() - i,
    {
        let t = names[i].as_str();
        if nest {
            out.append("    router = router.nest(\"/");
            out.append(t);
            out.append("\", super::");
            out.append(t);
            out.append("::router());\n");
        } else {
            out.append("pub mod ");
            out.append(t);
            out.append(";\n");
        }
        proof {
            lemma_concat_map_step(vs, i as int, g);
            assert(vs[i as int] == t@);
        }
        i = i + 1;
    }
    proof {
        lemma_concat_map_all(vs, g);
    }
    out
}

/// The barrel: a module per table (sorted) and the router module.
pub open spec fn mod_rs_spec(rs: Seq<ResourceState>) -> Seq<char> {
    concat_map(sorted_tables(rs), http_mod_line()) + "pub mod router;\n\npub use router::router;\n"@
}

/// `transport/http/generated/mod.rs`.
pub fn build_mod_rs(resources: &[ResourceState]) -> (out: String)
    ensures
        out@ == mod_rs_spec(resources@),
{
    let names = table_names_sorted(resources);
    let mut out = lines_over(&names, false);
    out.append("pub mod router;\n\npub use router::router;\n");
    out
}

/// The top router: every resource router nested under `/<table>`, sorted.
pub open spec fn router_rs_spec(rs: Seq<ResourceState>) -> Seq<char> {
    "use axum::Router;\nuse crate::Ctx;\n\npub fn router() -> Router<Ctx> {\n    let mut router = Router::new();\n"@
        + concat_map(sorted_tables(rs), nest_line()) + "    router\n}\n"@
}

/// `transport/http/generated/router.rs`.
pub fn build_router_rs(resources: &[ResourceState]) -> (out: String)
    ensures
        out@ == router_rs_spec(resources@),
{
    let names = table_names_sorted(resources);
    let body = lines_over(&names, true);
    let mut out = owned("use axum::Router;\nuse crate::Ctx;\n\npub fn router() -> Router<Ctx> {\n    let mut router = Router::new();\n");
    out.append(body.as_str());
    out.append("    router\n}\n");
    out
}


pub open spec fn handler_file() -> spec_fn(ResourceState) -> (Seq<char>, Seq<char>) {
    |r: ResourceState| (r.name@ + ".rs"@, resource_file_spec(r))
}

/// The files of `transport/http/generated/`: for the resources generated at
/// least to routes, one handler module each, then `mod.rs` and `router.rs`.
pub open spec fn plan_spec(rs: Seq<ResourceState>) -> Seq<(Seq<char>, Seq<char>)> {
    let kept = at_level(rs, GenLevel::Route);
    kept.map_values(handler_file()) + seq![("mod.rs"@, mod_rs_spec(kept)), ("router.rs"@, router_rs_spec(kept))]
}

/// The files the HTTP routes pass writes, bodies without markers.
pub fn plan_files(resources: Vec<ResourceState>) -> (r: Vec<(String, String)>)
    ensures
        file_pairs(r@) == plan_spec(resources@),
{
    let kept = resources_at_level(resources, GenLevel::Route);
    let ghost f = handler_file();
    let mut out: Vec<(String, String)> = Vec::new();
    let mut i: usize = 0;
    while i < kept.len()
        invariant
            i <= kept.len(),
            f == handler_file(),
            file_pairs(out@) == kept@.take(i as int).map_values(f),
        decreases kept.len() - i,
    {
        let mut name = owned(kept[i].name.as_str());
        name.append(".rs");
        let body = build_resource_file(&kept[i]);
        let ghost before = file_pairs(out@);
        let ghost pv = (name@, body@);
        out.push((name, body));
        assert(file_pairs(out@) =~= before.push(pv));
        assert(kept@.take(i + 1).map_values(f) =~= kept@.take(i as int).map_values(f).push(f(kept@[i as int])));
        i = i + 1;
    }
    assert(kept@.take(i as int) =~= kept@);
    let m = build_mod_rs(kept.as_slice());
    let rt = build_router_rs(kept.as_slice());
    let ghost before = file_pairs(out@);
    let ghost mv = m@;
    let ghost rv = rt@;
    out.push((owned("mod.rs"), m));
    out.push((owned("router.rs"), rt));
    assert(file_pairs(out@) =~= before + seq![("mod.rs"@, mv), ("router.rs"@, rv)]);
    out
}

} // verus!
