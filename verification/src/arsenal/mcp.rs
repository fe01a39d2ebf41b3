//! The decisions of the arsenal's JSON-RPC tool server: which reply a
//! request gets, and what each tool selects from a report.
use vstd::prelude::*;
use crate::arsenal::scanner::{ArsenalReport, Entry};
use crate::error::BlastError;
use serde_json::Value;
use crate::text::{owned, seq_contains, str_contains, str_eq, str_to_lowercase, unicode_lower_str};

verus! {

pub const PROTOCOL_VERSION: &'static str = "2024-11-05";

pub const SERVER_NAME: &'static str = "blast-arsenal";

pub const SERVER_VERSION: &'static str = "0.1.0";

/// JSON-RPC code of a line that is not JSON.
pub const PARSE_ERROR: i32 = -32700;

/// JSON-RPC code of a request without a method.
pub const INVALID_REQUEST: i32 = -32600;

/// JSON-RPC code of an unknown method.
pub const METHOD_NOT_FOUND: i32 = -32601;

/// Code of a failed tool call.
pub const TOOL_ERROR: i32 = -32000;

/// What a request is answered with.
#[derive(Debug, Clone, Copy, PartialEq, Eq, Structural)]
pub enum Reply {
    /// The server's protocol version, capabilities and identity.
    Initialize,
    /// An empty result object.
    EmptyResult,
    /// The list of tools.
    ToolsList,
    /// The result of the named tool.
    ToolsCall,
    /// No reply.
    Quiet,
    /// No reply; the server stops.
    Stop,
    /// An error: the request names no method.
    MissingMethod,
    /// An error: the method is unknown.
    MethodNotFound,
}

/// The reply for a request with method `method` (`None` when it has none);
/// `is_notification`: the request carries no id.
pub open spec fn dispatch_spec(method: Option<Seq<char>>, is_notification: bool) -> Reply {
    match method {
        None => Reply::MissingMethod,
        Some(m) => if m == "initialize"@ {
            Reply::Initialize
        } else if m == "initialized"@ || m == "notifications/initialized"@ {
            Reply::Quiet
        } else if m == "shutdown"@ || m == "ping"@ {
            Reply::EmptyResult
        } else if m == "exit"@ {
            Reply::Stop
        } else if m == "tools/list"@ {
            Reply::ToolsList
        } else if m == "tools/call"@ {
            Reply::ToolsCall
        } else if is_notification {
            Reply::Quiet
        } else {
            Reply::MethodNotFound
        },
    }
}

pub open spec fn opt_seq(o: Option<&str>) -> Option<Seq<char>> {
    match o {
        Some(s) => Some(s@),
        None => None,
    }
}

/// See `dispatch_spec`.
pub fn dispatch(method: Option<&str>, is_notification: bool) -> (r: Reply)
    ensures
        r == dispatch_spec(opt_seq(method), is_notification),
{
    let m = match method {
        Some(m) => m,
        None => {
            return Reply::MissingMethod;
        },
    };
    if str_eq(m, "initialize") {
        Reply::Initialize
    } else if str_eq(m, "initialized") || str_eq(m, "notifications/initialized") {
        Reply::Quiet
    } else if str_eq(m, "shutdown") || str_eq(m, "ping") {
        Reply::EmptyResult
    } else if str_eq(m, "exit") {
        Reply::Stop
    } else if str_eq(m, "tools/list") {
        Reply::ToolsList
    } else if str_eq(m, "tools/call") {
        Reply::ToolsCall
    } else if is_notification {
        Reply::Quiet
    } else {
        Reply::MethodNotFound
    }
}

/// The tools the server offers.
#[derive(Debug, Clone, Copy, PartialEq, Eq, Structural)]
pub enum Tool {
    List,
    Search,
    Describe,
    Routes,
}

pub open spec fn tool_spec(name: Seq<char>) -> Option<Tool> {
    if name == "list"@ {
        Some(Tool::List)
    } else if name == "search"@ {
        Some(Tool::Search)
    } else if name == "describe"@ {
        Some(Tool::Describe)
    } else if name == "routes"@ {
        Some(Tool::Routes)
    } else {
        None
    }
}

/// The tool a `tools/call` names; an error for a missing or unknown name.
pub fn tool_named(name: Option<&str>) -> (r: Result<Tool, BlastError>)
    ensures
        match r {
            Ok(t) => name matches Some(n) && tool_spec(n@) == Some(t),
            Err(BlastError::Invalid(m)) => match name {
                None => m@ == "missing tool name"@,
                Some(n) => tool_spec(n@) is None && m@ == "unknown tool: "@ + n@,
            },
            Err(_) => false,
        },
{
    let n = match name {
        Some(n) => n,
        None => {
            return Err(BlastError::Invalid(owned("missing tool name")));
        },
    };
    if str_eq(n, "list") {
        Ok(Tool::List)
    } else if str_eq(n, "search") {
        Ok(Tool::Search)
    } else if str_eq(n, "describe") {
        Ok(Tool::Describe)
    } else if str_eq(n, "routes") {
        Ok(Tool::Routes)
    } else {
        let mut m = owned("unknown tool: ");
        m.append(n);
        Err(BlastError::Invalid(m))
    }
}

/// Whether a layer passes the optional layer filter.
pub open spec fn layer_matches_spec(filter: Option<Seq<char>>, layer: Seq<char>) -> bool {
    match filter {
        Some(f) => f == layer,
        None => true,
    }
}

/// See `layer_matches_spec`.
pub fn layer_matches(filter: Option<&str>, layer: &str) -> (r: bool)
    ensures
        r == layer_matches_spec(opt_seq(filter), layer@),
{
    match filter {
        Some(f) => str_eq(f, layer),
        None => true,
    }
}

/// Positions `(layer, entry)` of the entries of layer `li` that `keep`
/// selects, in order.
pub open spec fn positions_in(entries: Seq<Entry>, li: int, keep: spec_fn(Entry) -> bool) -> Seq<(usize, usize)>
    decreases entries.len(),
{
    if entries.len() == 0 {
        seq![]
    } else {
        positions_in(entries.drop_last(), li, keep) + (if keep(entries.last()) {
            seq![(li as usize, (entries.len() - 1) as usize)]
        } else {
            seq![]
        })
    }
}

/// Positions of the selected entries of the selected layers, in report order.
pub open spec fn hits(
    layers: Seq<(String, Vec<Entry>)>,
    keep_layer: spec_fn(Seq<char>) -> bool,
    keep: spec_fn(Entry) -> bool,
) -> Seq<(usize, usize)>
    decreases layers.len(),
{
    if layers.len() == 0 {
        seq![]
    } else {
        hits(layers.drop_last(), keep_layer, keep) + (if keep_layer(layers.last().0@) {
            positions_in(layers.last().1@, layers.len() - 1, keep)
        } else {
            seq![]
        })
    }
}

/// `list`: every entry of the layers passing the filter.
pub open spec fn list_spec(report: ArsenalReport, filter: Option<Seq<char>>) -> Seq<(usize, usize)> {
    hits(report.layers@, |l: Seq<char>| layer_matches_spec(filter, l), |e: Entry| true)
}

/// The text `search` matches: name, fqn and doc, each lower-cased, joined by spaces.
pub open spec fn search_blob(e: Entry) -> Seq<char> {
    unicode_lower_str(e.name@) + " "@ + unicode_lower_str(e.fqn@) + " "@ + unicode_lower_str(e.doc@)
}

/// `search`: the entries whose blob contains the lower-cased query.
pub open spec fn search_spec(report: ArsenalReport, query: Seq<char>) -> Seq<(usize, usize)> {
    hits(report.layers@, |l: Seq<char>| true, |e: Entry| seq_contains(search_blob(e), unicode_lower_str(query)))
}

fn select(
    report: &ArsenalReport,
    filter: Option<&str>,
    query: Option<&String>,
    Ghost(keep_layer): Ghost<spec_fn(Seq<char>) -> bool>,
    Ghost(keep): Ghost<spec_fn(Entry) -> bool>,
) -> (r: Vec<(usize, usize)>)
    requires
        forall|l: Seq<char>| #[trigger] keep_layer(l) == layer_matches_spec(opt_seq(filter), l),
        forall|e: Entry| #[trigger] keep(e) == match query {
            Some(q) => seq_contains(search_blob(e), q@),
            None => true,
        },
    ensures
        r@ == hits(report.layers@, keep_layer, keep),
{
    let layers = &report.layers;
    let mut out: Vec<(usize, usize)> = Vec::new();
    let mut li: usize = 0;
    assert(layers@.take(0) =~= Seq::<(String, Vec<Entry>)>::empty());
    while li < layers.len()
        invariant
            li <= layers.len(),
            layers == &report.layers,
            forall|l: Seq<char>| #[trigger] keep_layer(l) == layer_matches_spec(opt_seq(filter), l),
            forall|e: Entry| #[trigger] keep(e) == match query {
                Some(q) => seq_contains(search_blob(e), q@),
                None => true,
            },
            out@ == hits(layers@.take(li as int), keep_layer, keep),
        decreases layers.len() - li,
    {
        let ghost lt = layers@.take(li + 1);
        assert(lt.drop_last() =~= layers@.take(li as int));
        assert(lt.last() == layers@[li as int]);
        let layer_ok = layer_matches(filter, layers[li].0.as_str());
        if layer_ok {
            let entries = &layers[li].1;
            let ghost base = out@;
            let mut ei: usize = 0;
            assert(entries@.take(0) =~= Seq::<Entry>::empty());
            assert(out@ =~= base + positions_in(entries@.take(0), li as int, keep));
            while ei < entries.len()
                invariant
                    ei <= entries.len(),
                    li < layers.len(),
                    forall|e: Entry| #[trigger] keep(e) == match query {
                        Some(q) => seq_contains(search_blob(e), q@),
                        None => true,
                    },
                    out@ == base + positions_in(entries@.take(ei as int), li as int, keep),
                decreases entries.len() - ei,
            {
                let ghost et = entries@.take(ei + 1);
                assert(et.drop_last() =~= entries@.take(ei as int));
                assert(et.last() == entries@[ei as int]);
                let e = &entries[ei];
                let take = match query {
                    Some(q) => {
                        let mut blob = str_to_lowercase(e.name.as_str());
                        blob.append(" ");
                        let f = str_to_lowercase(e.fqn.as_str());
                        blob.append(f.as_str());
                        blob.append(" ");
                        let d = str_to_lowercase(e.doc.as_str());
                        blob.append(d.as_str());
                        assert(blob@ == search_blob(*e));
                        str_contains(blob.as_str(), q.as_str())
                    },
                    None => true,
                };
                assert(take == keep(*e));
                if take {
                    out.push((li, ei));
                }
                assert(out@ =~= base + positions_in(et, li as int, keep));
                ei = ei + 1;
            }
            assert(entries@.take(ei as int) =~= entries@);
        }
        assert(out@ =~= hits(lt, keep_layer, keep));
        li = li + 1;
    }
    assert(layers@.take(li as int) =~= layers@);
    out
}

/// `list`: positions `(layer, entry)` of the entries of the layers that pass
/// the filter, in report order.
pub fn tool_list(report: &ArsenalReport, filter: Option<&str>) -> (r: Vec<(usize, usize)>)
    ensures
        r@ == list_spec(*report, opt_seq(filter)),
{
    let ghost keep_layer = |l: Seq<char>| layer_matches_spec(opt_seq(filter), l);
    let ghost keep = |e: Entry| true;
    let r = select(report, filter, None, Ghost(keep_layer), Ghost(keep));
    assert(r@ == list_spec(*report, opt_seq(filter)));
    r
}

/// `search`: positions of the entries whose lower-cased name, fqn and doc
/// contain the lower-cased query; an error when the query is missing.
pub fn tool_search(report: &ArsenalReport, query: Option<&str>) -> (r: Result<Vec<(usize, usize)>, BlastError>)
    ensures
        match r {
            Ok(v) => query matches Some(q) && v@ == search_spec(*report, q@),
            Err(BlastError::Invalid(m)) => query is None && m@ == "missing arg: query"@,
            Err(_) => false,
        },
{
    let q = match query {
        Some(q) => q,
        None => {
            return Err(BlastError::Invalid(owned("missing arg: query")));
        },
    };
    let lowered = str_to_lowercase(q);
    let ghost keep_layer = |l: Seq<char>| layer_matches_spec(None, l);
    let ghost keep = |e: Entry| seq_contains(search_blob(e), unicode_lower_str(q@));
    let r = select(report, None, Some(&lowered), Ghost(keep_layer), Ghost(keep));
    assert(keep_layer =~= (|l: Seq<char>| true));
    Ok(r)
}

/// `describe`: the position of the first entry (in report order) with the
/// given fully qualified name.
pub fn tool_describe(report: &ArsenalReport, fqn: Option<&str>) -> (r: Result<(usize, usize), BlastError>)
    ensures
        match r {
            Ok((i, j)) => fqn matches Some(f) && i < report.layers@.len() && j < report.layers@[i as int].1@.len()
                && report.layers@[i as int].1@[j as int].fqn@ == f@ && (forall|a: int, b: int|
                0 <= a < report.layers@.len() && 0 <= b < report.layers@[a].1@.len() && (a < i || (a == i && b
                < j)) ==> #[trigger] report.layers@[a].1@[b].fqn@ != f@),
            Err(BlastError::NotFound(m)) => fqn matches Some(f) && m@ == f@ && forall|a: int, b: int|
                0 <= a < report.layers@.len() && 0 <= b < report.layers@[a].1@.len()
                    ==> #[trigger] report.layers@[a].1@[b].fqn@ != f@,
            Err(BlastError::Invalid(m)) => fqn is None && m@ == "missing arg: fqn"@,
            Err(_) => false,
        },
{
    let f = match fqn {
        Some(f) => f,
        None => {
            return Err(BlastError::Invalid(owned("missing arg: fqn")));
        },
    };
    let layers = &report.layers;
    let mut i: usize = 0;
    while i < layers.len()
        invariant
            i <= layers.len(),
            layers == &report.layers,
            fqn == Some(f),
            forall|a: int, b: int|
                0 <= a < i && 0 <= b < layers@[a].1@.len() ==> #[trigger] layers@[a].1@[b].fqn@ != f@,
        decreases layers.len() - i,
    {
        let entries = &layers[i].1;
        let mut j: usize = 0;
        while j < entries.len()
            invariant
                j <= entries.len(),
                i < layers.len(),
                layers == &report.layers,
                fqn == Some(f),
                *entries == layers@[i as int].1,
                forall|a: int, b: int|
                    0 <= a < i && 0 <= b < layers@[a].1@.len() ==> #[trigger] layers@[a].1@[b].fqn@ != f@,
                forall|b: int| 0 <= b < j ==> #[trigger] entries@[b].fqn@ != f@,
            decreases entries.len() - j,
        {
            if str_eq(entries[j].fqn.as_str(), f) {
                assert forall|a: int, b: int|
                    0 <= a < report.layers@.len() && 0 <= b < report.layers@[a].1@.len() && (a < i || (a == i
                        && b < j)) implies #[trigger] report.layers@[a].1@[b].fqn@ != f@ by {
                    if a == i {
                        assert(report.layers@[a].1@[b] == entries@[b]);
                    }
                }
                assert(report.layers@[i as int].1@[j as int] == entries@[j as int]);
                return Ok((i, j));
            }
            j = j + 1;
        }
        assert forall|a: int, b: int| 0 <= a < i + 1 && 0 <= b < layers@[a].1@.len() implies #[trigger] layers@[a].1@[b].fqn@
            != f@ by {
            if a == i {
                assert(layers@[a].1@[b] == entries@[b]);
            }
        }
        i = i + 1;
    }
    Err(BlastError::NotFound(owned(f)))
}


/// The JSON-RPC error code a reply carries, if it is an error.
pub open spec fn error_code_spec(r: Reply) -> Option<i32> {
    match r {
        Reply::MissingMethod => Some(INVALID_REQUEST),
        Reply::MethodNotFound => Some(METHOD_NOT_FOUND),
        _ => None,
    }
}

/// See `error_code_spec`.
pub fn error_code(r: Reply) -> (c: Option<i32>)
    ensures
        c == error_code_spec(r),
{
    match r {
        Reply::MissingMethod => Some(INVALID_REQUEST),
        Reply::MethodNotFound => Some(METHOD_NOT_FOUND),
        _ => None,
    }
}


/// The fields of one JSON-RPC request that the server reads.
pub struct Request {
    /// Whether the request has an `id` (a request without one is a notification).
    pub has_id: bool,
    /// The `id` as JSON text, `null` when there is none; the reply echoes it.
    pub id: String,
    /// The `method` string.
    pub method: Option<String>,
    /// `params.name`: the tool a `tools/call` names.
    pub tool: Option<String>,
    /// `params.arguments.layer`.
    pub layer: Option<String>,
    /// `params.arguments.query`.
    pub query: Option<String>,
    /// `params.arguments.fqn`.
    pub fqn: Option<String>,
}

pub type RequestView = (bool, Seq<char>, Option<Seq<char>>, Option<Seq<char>>, Option<Seq<char>>, Option<Seq<char>>, Option<Seq<char>>);

pub open spec fn ostr(o: Option<String>) -> Option<Seq<char>> {
    match o {
        Some(s) => Some(s@),
        None => None,
    }
}

pub open spec fn request_view(r: Request) -> RequestView {
    (r.has_id, r.id@, ostr(r.method), ostr(r.tool), ostr(r.layer), ostr(r.query), ostr(r.fqn))
}

/// What `serde_json::from_str` gives for one line, read as a request's
/// fields (string fields kept only where they are JSON strings); `None`
/// where the line is not JSON. It depends on the line alone.
pub uninterp spec fn json_request(line: Seq<char>) -> Option<RequestView>;

/// `serde_json::from_str` of one line into a `Value`, then the request's
/// fields read from it; the parser's error as text, not stated.
#[verifier::external_body]
pub fn parse_request(line: &str) -> (r: Result<Request, String>)
    ensures
        r is Ok <==> json_request(line@) is Some,
        r matches Ok(q) ==> json_request(line@) == Some(request_view(q)),
{
    let v: Value = serde_json::from_str(line).map_err(|e| e.to_string())?;
    let s = |x: Option<&Value>| x.and_then(Value::as_str).map(str::to_string);
    let args = v.pointer("/params/arguments");
    Ok(Request {
        has_id: v.get("id").is_some(),
        id: v.get("id").unwrap_or(&Value::Null).to_string(),
        method: s(v.get("method")),
        tool: s(v.pointer("/params/name")),
        layer: s(args.and_then(|a| a.get("layer"))),
        query: s(args.and_then(|a| a.get("query"))),
        fqn: s(args.and_then(|a| a.get("fqn"))),
    })
}

/// One line of input read as a request and the reply it gets; a line that
/// is not JSON is refused with `parse error: ` and the parser's message.
pub fn request_of_line(line: &str) -> (r: Result<(Request, Reply), String>)
    ensures
        match r {
            Ok((q, reply)) => json_request(line@) == Some(request_view(q)) && reply == dispatch_spec(
                ostr(q.method),
                !q.has_id,
            ),
            Err(m) => json_request(line@) is None && crate::text::seq_starts_with(m@, "parse error: "@),
        },
{
    match parse_request(line) {
        Ok(q) => {
            let reply = match &q.method {
                Some(m) => dispatch(Some(m.as_str()), !q.has_id),
                None => dispatch(None, !q.has_id),
            };
            Ok((q, reply))
        },
        Err(e) => {
            let mut m = owned("parse error: ");
            let ghost head = m@;
            m.append(e.as_str());
            assert(m@.subrange(0, head.len() as int) =~= head);
            Err(m)
        },
    }
}

/// `search` finds every entry whose lower-cased name, fully qualified name
/// or doc contains the lower-cased query.
pub proof fn lemma_search_finds_matching_fields(report: ArsenalReport, query: Seq<char>, i: int, j: int)
    requires
        0 <= i < report.layers@.len(),
        0 <= j < report.layers@[i].1@.len(),
        ({
            let e = report.layers@[i].1@[j];
            let q = unicode_lower_str(query);
            seq_contains(unicode_lower_str(e.name@), q) || seq_contains(unicode_lower_str(e.fqn@), q)
                || seq_contains(unicode_lower_str(e.doc@), q)
        }),
    ensures
        search_spec(report, query).contains((i as usize, j as usize)),
{
    let e = report.layers@[i].1@[j];
    let q = unicode_lower_str(query);
    let n = unicode_lower_str(e.name@);
    let f = unicode_lower_str(e.fqn@);
    let d = unicode_lower_str(e.doc@);
    let sp = " "@;
    if seq_contains(n, q) {
        lemma_contains_within(Seq::empty(), n, sp + f + sp + d, q);
        assert(Seq::<char>::empty() + n + (sp + f + sp + d) =~= search_blob(e));
    } else if seq_contains(f, q) {
        lemma_contains_within(n + sp, f, sp + d, q);
        assert(n + sp + f + (sp + d) =~= search_blob(e));
    } else {
        lemma_contains_within(n + sp + f + sp, d, Seq::empty(), q);
        assert(n + sp + f + sp + d + Seq::<char>::empty() =~= search_blob(e));
    }
    let keep = |e: Entry| seq_contains(search_blob(e), unicode_lower_str(query));
    lemma_hits_contain(report.layers@, |l: Seq<char>| true, keep, i, j);
}

/// A piece that contains `a` makes any text around it contain `a`.
proof fn lemma_contains_within(pre: Seq<char>, x: Seq<char>, post: Seq<char>, a: Seq<char>)
    requires
        seq_contains(x, a),
    ensures
        seq_contains(pre + x + post, a),
{
    let k = choose|k: int| 0 <= k <= x.len() - a.len() && #[trigger] x.subrange(k, k + a.len()) == a;
    let w = pre + x + post;
    assert(w.subrange(pre.len() + k, pre.len() + k + a.len()) =~= x.subrange(k, k + a.len()));
}

/// A kept entry of a kept layer is among the hits.
proof fn lemma_hits_contain(
    layers: Seq<(String, Vec<Entry>)>,
    keep_layer: spec_fn(Seq<char>) -> bool,
    keep: spec_fn(Entry) -> bool,
    i: int,
    j: int,
)
    requires
        0 <= i < layers.len(),
        0 <= j < layers[i].1@.len(),
        keep_layer(layers[i].0@),
        keep(layers[i].1@[j]),
    ensures
        hits(layers, keep_layer, keep).contains((i as usize, j as usize)),
    decreases layers.len(),
{
    let d = layers.drop_last();
    let h = hits(d, keep_layer, keep);
    if i == layers.len() - 1 {
        lemma_positions_contain(layers[i].1@, i, keep, j);
        let ps = positions_in(layers.last().1@, layers.len() - 1, keep);
        let k = choose|k: int| 0 <= k < ps.len() && ps[k] == (i as usize, j as usize);
        assert((h + ps)[h.len() + k] == ps[k]);
    } else {
        assert(d[i] == layers[i]);
        lemma_hits_contain(d, keep_layer, keep, i, j);
        let k = choose|k: int| 0 <= k < h.len() && h[k] == (i as usize, j as usize);
        let tail = if keep_layer(layers.last().0@) {
            positions_in(layers.last().1@, layers.len() - 1, keep)
        } else {
            seq![]
        };
        assert((h + tail)[k] == h[k]);
    }
}

/// A kept entry of a layer is among that layer's positions.
proof fn lemma_positions_contain(entries: Seq<Entry>, li: int, keep: spec_fn(Entry) -> bool, j: int)
    requires
        0 <= j < entries.len(),
        keep(entries[j]),
    ensures
        positions_in(entries, li, keep).contains((li as usize, j as usize)),
    decreases entries.len(),
{
    let d = entries.drop_last();
    let h = positions_in(d, li, keep);
    if j == entries.len() - 1 {
        let tail = seq![(li as usize, (entries.len() - 1) as usize)];
        assert((h + tail)[h.len() as int] == tail[0]);
    } else {
        assert(d[j] == entries[j]);
        lemma_positions_contain(d, li, keep, j);
        let k = choose|k: int| 0 <= k < h.len() && h[k] == (li as usize, j as usize);
        let tail = if keep(entries.last()) {
            seq![(li as usize, (entries.len() - 1) as usize)]
        } else {
            seq![]
        };
        assert((h + tail)[k] == h[k]);
    }
}

} // verus!
