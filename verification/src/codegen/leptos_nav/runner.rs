//! Route resolution and validation for the Leptos navigation inventory.
use vstd::prelude::*;
use vstd::string::*;
use crate::error::BlastError;
use crate::codegen::app_routes::runner::resource_routes;
use crate::codegen::structs_naming::type_stem_spec;
use crate::state::app::{NavConfig, Page};
use crate::state::{verb_lookup, GenLevel, ResourceState, Verb};
use crate::text::{join, join_strings, lex, owned, sort_strings, str_eq, views};

verus! {

/// Files a generator run wrote and files it left unchanged.
pub struct EmitReport {
    pub written: Vec<String>,
    pub skipped: Vec<String>,
}

impl EmitReport {
    pub fn new() -> (r: Self)
        ensures
            r.written@.len() == 0,
            r.skipped@.len() == 0,
    {
        EmitReport { written: Vec::new(), skipped: Vec::new() }
    }
}

/// The URL path a route name resolves to.
pub struct ResolvedRoute {
    pub path: String,
}

/// Route names with their resolved paths; each name occurs once, and a
/// later insert under a name replaces the earlier path.
pub struct RouteTable {
    pub routes: Vec<(String, ResolvedRoute)>,
}

pub open spec fn route_names(s: Seq<(String, ResolvedRoute)>) -> Seq<Seq<char>> {
    s.map_values(|e: (String, ResolvedRoute)| e.0@)
}

/// The path stored under `k` (first entry with that name).
pub open spec fn route_lookup(s: Seq<(String, ResolvedRoute)>, k: Seq<char>) -> Option<Seq<char>>
    decreases s.len(),
{
    if s.len() == 0 {
        None
    } else if s[0].0@ == k {
        Some(s[0].1.path@)
    } else {
        route_lookup(s.drop_first(), k)
    }
}

proof fn lemma_lookup_some(s: Seq<(String, ResolvedRoute)>, i: int)
    requires
        0 <= i < s.len(),
        route_names(s).no_duplicates(),
    ensures
        route_lookup(s, s[i].0@) == Some(s[i].1.path@),
    decreases s.len(),
{
    if i > 0 {
        assert(route_names(s)[0] == s[0].0@ && route_names(s)[i] == s[i].0@);
        assert(route_names(s.drop_first()) =~= route_names(s).drop_first());
        lemma_lookup_some(s.drop_first(), i - 1);
    }
}

proof fn lemma_lookup_none(s: Seq<(String, ResolvedRoute)>, k: Seq<char>)
    requires
        !route_names(s).contains(k),
    ensures
        route_lookup(s, k) is None,
    decreases s.len(),
{
    if s.len() > 0 {
        assert(route_names(s)[0] == s[0].0@);
        assert(route_names(s.drop_first()) =~= route_names(s).drop_first());
        if route_names(s.drop_first()).contains(k) {
            let j = choose|j: int| 0 <= j < route_names(s.drop_first()).len() && route_names(s.drop_first())[j] == k;
            assert(route_names(s)[j + 1] == k);
        }
        lemma_lookup_none(s.drop_first(), k);
    }
}

impl RouteTable {
    pub open spec fn wf(&self) -> bool {
        route_names(self.routes@).no_duplicates()
    }

    pub open spec fn lookup(&self, k: Seq<char>) -> Option<Seq<char>> {
        route_lookup(self.routes@, k)
    }

    /// An empty table.
    pub fn new() -> (r: Self)
        ensures
            r.wf(),
            forall|k: Seq<char>| r.lookup(k) is None,
    {
        let r = RouteTable { routes: Vec::new() };
        assert(route_names(r.routes@) =~= Seq::<Seq<char>>::empty());
        r
    }

    fn find(&self, name: &str) -> (r: Option<usize>)
        requires
            self.wf(),
        ensures
            match r {
                Some(i) => i < self.routes@.len() && self.routes@[i as int].0@ == name@,
                None => !route_names(self.routes@).contains(name@),
            },
    {
        let mut i: usize = 0;
        while i < self.routes.len()
            invariant
                i <= self.routes@.len(),
                forall|j: int| 0 <= j < i ==> route_names(self.routes@)[j] != name@,
            decreases self.routes@.len() - i,
        {
            if str_eq(self.routes[i].0.as_str(), name) {
                return Some(i);
            }
            i = i + 1;
        }
        None
    }

    /// The path stored under `name`.
    pub fn get(&self, name: &str) -> (r: Option<&ResolvedRoute>)
        requires
            self.wf(),
        ensures
            match r {
                Some(p) => self.lookup(name@) == Some(p.path@),
                None => self.lookup(name@) is None,
            },
    {
        match self.find(name) {
            Some(i) => {
                proof {
                    lemma_lookup_some(self.routes@, i as int);
                }
                Some(&self.routes[i].1)
            },
            None => {
                proof {
                    lemma_lookup_none(self.routes@, name@);
                }
                None
            },
        }
    }

    /// `name` has a path.
    pub fn contains_key(&self, name: &str) -> (r: bool)
        requires
            self.wf(),
        ensures
            r == self.lookup(name@) is Some,
    {
        self.get(name).is_some()
    }

    /// Stores `path` under `name`, replacing an earlier path.
    pub fn insert(&mut self, name: String, path: String)
        requires
            old(self).wf(),
        ensures
            final(self).wf(),
            forall|k: Seq<char>| #[trigger] final(self).lookup(k) == if k == name@ {
                Some(path@)
            } else {
                old(self).lookup(k)
            },
    {
        let ghost old_routes = self.routes@;
        match self.find(name.as_str()) {
            Some(i) => {
                let ghost nm = self.routes@[i as int].0;
                self.routes.set(i, (nm_clone(&self.routes[i].0), ResolvedRoute { path }));
                proof {
                    assert(route_names(self.routes@) =~= route_names(old_routes));
                    assert forall|k: Seq<char>| #[trigger] route_lookup(self.routes@, k) == if k == name@ {
                        Some(path@)
                    } else {
                        route_lookup(old_routes, k)
                    } by {
                        if k == name@ {
                            lemma_lookup_some(self.routes@, i as int);
                        } else if route_names(old_routes).contains(k) {
                            let j = choose|j: int| 0 <= j < route_names(old_routes).len() && route_names(old_routes)[j] == k;
                            lemma_lookup_some(self.routes@, j);
                            lemma_lookup_some(old_routes, j);
                        } else {
                            lemma_lookup_none(self.routes@, k);
                            lemma_lookup_none(old_routes, k);
                        }
                    }
                }
                drop_string(name);
            },
            None => {
                let ghost nv = name@;
                self.routes.push((name, ResolvedRoute { path }));
                proof {
                    assert(route_names(self.routes@) =~= route_names(old_routes).push(nv));
                    assert forall|k: Seq<char>| #[trigger] route_lookup(self.routes@, k) == if k == nv {
                        Some(path@)
                    } else {
                        route_lookup(old_routes, k)
                    } by {
                        let n = old_routes.len() as int;
                        if k == nv {
                            lemma_lookup_some(self.routes@, n);
                        } else if route_names(old_routes).contains(k) {
                            let j = choose|j: int| 0 <= j < route_names(old_routes).len() && route_names(old_routes)[j] == k;
                            lemma_lookup_some(self.routes@, j);
                            lemma_lookup_some(old_routes, j);
                        } else {
                            assert(!route_names(self.routes@).contains(k)) by {
                                if route_names(self.routes@).contains(k) {
                                    let j = choose|j: int| 0 <= j < route_names(self.routes@).len() && route_names(self.routes@)[j] == k;
                                    if j < n {
                                        assert(route_names(old_routes)[j] == k);
                                    }
                                }
                            }
                            lemma_lookup_none(self.routes@, k);
                            lemma_lookup_none(old_routes, k);
                        }
                    }
                }
            },
        }
    }

    /// Route names in lexicographic order (the map's key order).
    pub fn sorted_names(&self) -> (r: Vec<String>)
        ensures
            views(r@) == route_names(self.routes@).sort_by(lex()),
    {
        let mut v: Vec<String> = Vec::new();
        let mut i: usize = 0;
        while i < self.routes.len()
            invariant
                i <= self.routes@.len(),
                views(v@) == route_names(self.routes@.take(i as int)),
            decreases self.routes@.len() - i,
        {
            let ghost before = views(v@);
            v.push(nm_clone(&self.routes[i].0));
            assert(views(v@) =~= before.push(self.routes@[i as int].0@));
            assert(route_names(self.routes@.take(i + 1)) =~= route_names(self.routes@.take(i as int)).push(
                self.routes@[i as int].0@,
            ));
            i = i + 1;
        }
        assert(self.routes@.take(self.routes@.len() as int) =~= self.routes@);
        sort_strings(v)
    }
}

fn nm_clone(s: &String) -> (r: String)
    ensures
        r@ == s@,
{
    owned(s.as_str())
}

fn drop_string(_s: String) {
}

/// Named routes of the hand-written pages every app has.
pub open spec fn handwritten_ops() -> Seq<(Seq<char>, Seq<char>)> {
    seq![
        ("welcome"@, "/"@),
        ("login"@, "/login"@),
        ("logout"@, "/logout"@),
        ("register"@, "/register"@),
        ("dashboard"@, "/dashboard"@),
        ("profile"@, "/profile"@),
    ]
}

pub open spec fn page_ops(pages: Seq<Page>) -> Seq<(Seq<char>, Seq<char>)> {
    pages.map_values(|p: Page| (p.route@, p.path@))
}

/// The route of one verb's HTML page, when the resource declares the verb
/// with page output.
pub open spec fn verb_page_op(r: ResourceState, v: Verb, suffix: Seq<char>, path: Seq<char>) -> Seq<(Seq<char>, Seq<char>)> {
    match verb_lookup(r.verbs@, v) {
        Some(st) => if st.emit_html_page {
            seq![(r.name@ + "."@ + suffix, path)]
        } else {
            seq![]
        },
        None => seq![],
    }
}

/// Page routes of one resource (only at the `Pages` generation level).
pub open spec fn resource_ops(r: ResourceState) -> Seq<(Seq<char>, Seq<char>)> {
    let t = r.name@;
    if r.gen_level.rank() < GenLevel::Pages.rank() {
        seq![]
    } else {
        verb_page_op(r, Verb::List, "list"@, "/"@ + t) + verb_page_op(r, Verb::Create, "create"@, "/"@ + t + "/new"@)
            + verb_page_op(r, Verb::Update, "edit"@, "/"@ + t + "/:id/edit"@) + verb_page_op(
            r,
            Verb::Get,
            "detail"@,
            "/"@ + t + "/:id"@,
        )
    }
}

pub open spec fn all_resource_ops(rs: Seq<ResourceState>) -> Seq<(Seq<char>, Seq<char>)>
    decreases rs.len(),
{
    if rs.len() == 0 {
        seq![]
    } else {
        all_resource_ops(rs.drop_last()) + resource_ops(rs.last())
    }
}

/// Every (route name, path) registration, in order: hand-written routes,
/// then pages, then resource pages.
pub open spec fn route_ops(pages: Seq<Page>, rs: Seq<ResourceState>) -> Seq<(Seq<char>, Seq<char>)> {
    handwritten_ops() + page_ops(pages) + all_resource_ops(rs)
}

/// The path of the last registration under `k`.
pub open spec fn last_path(ops: Seq<(Seq<char>, Seq<char>)>, k: Seq<char>) -> Option<Seq<char>>
    decreases ops.len(),
{
    if ops.len() == 0 {
        None
    } else if ops.last().0 == k {
        Some(ops.last().1)
    } else {
        last_path(ops.drop_last(), k)
    }
}

fn push_op(ops: &mut Vec<(String, String)>, name: String, path: String)
    ensures
        final(ops)@.map_values(|e: (String, String)| (e.0@, e.1@)) == old(ops)@.map_values(
            |e: (String, String)| (e.0@, e.1@),
        ).push((name@, path@)),
{
    let ghost before = ops@;
    let ghost nv = (name@, path@);
    ops.push((name, path));
    assert(ops@.map_values(|e: (String, String)| (e.0@, e.1@)) =~= before.map_values(
        |e: (String, String)| (e.0@, e.1@),
    ).push(nv));
}

pub open spec fn op_views(v: Seq<(String, String)>) -> Seq<(Seq<char>, Seq<char>)> {
    v.map_values(|e: (String, String)| (e.0@, e.1@))
}

fn concat2(a: &str, b: &str) -> (r: String)
    ensures
        r@ == a@ + b@,
{
    let mut s = owned(a);
    s.append(b);
    s
}

fn push_verb_page(ops: &mut Vec<(String, String)>, r: &ResourceState, v: Verb, suffix: &str, path: String)
    ensures
        op_views(final(ops)@) == op_views(old(ops)@) + verb_page_op(*r, v, suffix@, path@),
{
    match r.verb_state(v) {
        Some(st) => {
            if st.emit_html_page {
                let mut name = concat2(r.name.as_str(), ".");
                name.append(suffix);
                push_op(ops, name, path);
                return;
            }
        },
        None => {},
    }
    assert(op_views(ops@) =~= op_views(ops@) + Seq::<(Seq<char>, Seq<char>)>::empty());
}

fn push_resource_ops(ops: &mut Vec<(String, String)>, r: &ResourceState)
    ensures
        op_views(final(ops)@) == op_views(old(ops)@) + resource_ops(*r),
{
    if !r.gen_level.at_least(GenLevel::Pages) {
        assert(op_views(ops@) =~= op_views(ops@) + Seq::<(Seq<char>, Seq<char>)>::empty());
        return;
    }
    let t = r.name.as_str();
    let ghost o0 = op_views(ops@);
    push_verb_page(ops, r, Verb::List, "list", concat2("/", t));
    let ghost o1 = op_views(ops@);
    let mut p = concat2("/", t);
    p.append("/new");
    push_verb_page(ops, r, Verb::Create, "create", p);
    let ghost o2 = op_views(ops@);
    let mut p = concat2("/", t);
    p.append("/:id/edit");
    push_verb_page(ops, r, Verb::Update, "edit", p);
    let ghost o3 = op_views(ops@);
    let mut p = concat2("/", t);
    p.append("/:id");
    push_verb_page(ops, r, Verb::Get, "detail", p);
    assert(op_views(ops@) =~= o0 + resource_ops(*r));
}

fn collect_route_ops(pages: &[Page], resources: &[ResourceState]) -> (r: Vec<(String, String)>)
    ensures
        op_views(r@) == route_ops(pages@, resources@),
{
    let mut ops: Vec<(String, String)> = Vec::new();
    push_op(&mut ops, owned("welcome"), owned("/"));
    push_op(&mut ops, owned("login"), owned("/login"));
    push_op(&mut ops, owned("logout"), owned("/logout"));
    push_op(&mut ops, owned("register"), owned("/register"));
    push_op(&mut ops, owned("dashboard"), owned("/dashboard"));
    push_op(&mut ops, owned("profile"), owned("/profile"));
    assert(op_views(ops@) =~= handwritten_ops());
    let mut i: usize = 0;
    while i < pages.len()
        invariant
            i <= pages@.len(),
            op_views(ops@) == handwritten_ops() + page_ops(pages@.take(i as int)),
        decreases pages@.len() - i,
    {
        push_op(&mut ops, owned(pages[i].route.as_str()), owned(pages[i].path.as_str()));
        assert(page_ops(pages@.take(i + 1)) =~= page_ops(pages@.take(i as int)).push(
            (pages@[i as int].route@, pages@[i as int].path@),
        ));
        i = i + 1;
    }
    assert(pages@.take(pages@.len() as int) =~= pages@);
    let mut k: usize = 0;
    while k < resources.len()
        invariant
            k <= resources@.len(),
            op_views(ops@) == handwritten_ops() + page_ops(pages@) + all_resource_ops(resources@.take(k as int)),
        decreases resources@.len() - k,
    {
        push_resource_ops(&mut ops, &resources[k]);
        assert(resources@.take(k + 1).drop_last() =~= resources@.take(k as int));
        k = k + 1;
    }
    assert(resources@.take(resources@.len() as int) =~= resources@);
    ops
}

/// `mod.rs` of the generated navigation directory.
pub const NAV_BARREL: &'static str = "pub mod app_nav;\n\npub use app_nav::AppNav;\n";

/// Route name -> path for every hand-written route, declared page and
/// resource page; a later registration under a name wins.
pub fn build_route_table(pages: &[Page], resources: &[ResourceState]) -> (r: RouteTable)
    ensures
        r.wf(),
        forall|k: Seq<char>| #[trigger] r.lookup(k) == last_path(route_ops(pages@, resources@), k),
{
    let ops = collect_route_ops(pages, resources);
    let ghost ov = op_views(ops@);
    let mut table = RouteTable::new();
    let mut i: usize = 0;
    assert(ov.take(0) =~= Seq::<(Seq<char>, Seq<char>)>::empty());
    while i < ops.len()
        invariant
            i <= ops@.len(),
            ov == op_views(ops@),
            table.wf(),
            forall|k: Seq<char>| #[trigger] table.lookup(k) == last_path(ov.take(i as int), k),
        decreases ops@.len() - i,
    {
        table.insert(owned(ops[i].0.as_str()), owned(ops[i].1.as_str()));
        assert(ov.take(i + 1).drop_last() =~= ov.take(i as int));
        assert(ov.take(i + 1).last() == (ops@[i as int].0@, ops@[i as int].1@));
        i = i + 1;
    }
    assert(ov.take(ops@.len() as int) =~= ov);
    table
}

/// (route, section key) of every nav entry, in display order.
pub open spec fn nav_refs(nav: NavConfig) -> Seq<(Seq<char>, Seq<char>)>
    decreases nav.sections@.len(),
{
    section_refs(nav.sections@)
}

pub open spec fn section_refs(ss: Seq<crate::state::app::Section>) -> Seq<(Seq<char>, Seq<char>)>
    decreases ss.len(),
{
    if ss.len() == 0 {
        seq![]
    } else {
        section_refs(ss.drop_last()) + ss.last().entries@.map_values(
            |e: crate::state::app::Entry| (e.route@, ss.last().key@),
        )
    }
}

/// The first reference whose route the table does not know.
pub open spec fn first_unknown(refs: Seq<(Seq<char>, Seq<char>)>, table: RouteTable) -> Option<(Seq<char>, Seq<char>)>
    decreases refs.len(),
{
    if refs.len() == 0 {
        None
    } else if table.lookup(refs[0].0) is None {
        Some(refs[0])
    } else {
        first_unknown(refs.drop_first(), table)
    }
}

pub open spec fn unknown_route_message(route: Seq<char>, key: Seq<char>, table: RouteTable) -> Seq<char> {
    "nav entry references unknown route '"@ + route + "' in section '"@ + key + "'; known routes: "@ + join(
        route_names(table.routes@).sort_by(lex()),
        ", "@,
    )
}

/// Every nav entry must name a known route; the error names the first one
/// that does not, and lists the known routes in order.
#[verifier::rlimit(100)]
#[verifier::spinoff_prover]
pub fn validate_nav(nav: &NavConfig, route_table: &RouteTable) -> (r: Result<(), BlastError>)
    requires
        route_table.wf(),
    ensures
        match first_unknown(nav_refs(*nav), *route_table) {
            None => r is Ok,
            Some((route, key)) => r matches Err(BlastError::Invalid(m)) && m@ == unknown_route_message(
                route,
                key,
                *route_table,
            ),
        },
{
    let ghost all = nav_refs(*nav);
    let mut i: usize = 0;
    assert(nav.sections@.take(0) =~= Seq::<crate::state::app::Section>::empty());
    assert(all.skip(0) =~= all);
    assert(all.take(0) =~= Seq::<(Seq<char>, Seq<char>)>::empty());
    while i < nav.sections.len()
        invariant
            i <= nav.sections@.len(),
            route_table.wf(),
            all == nav_refs(*nav),
            all == section_refs(nav.sections@),
            first_unknown(all, *route_table) == first_unknown(
                all.skip(section_refs(nav.sections@.take(i as int)).len() as int),
                *route_table,
            ),
            section_refs(nav.sections@.take(i as int)) =~= all.take(section_refs(nav.sections@.take(i as int)).len() as int),
            section_refs(nav.sections@.take(i as int)).len() <= all.len(),
        decreases nav.sections@.len() - i,
    {
        let section = &nav.sections[i];
        let ghost done = section_refs(nav.sections@.take(i as int));
        let ghost next = section_refs(nav.sections@.take(i + 1));
        proof {
            assert(nav.sections@.take(i + 1).drop_last() =~= nav.sections@.take(i as int));
            assert(nav.sections@.take(i + 1).last() == nav.sections@[i as int]);
            lemma_section_refs_prefix(nav.sections@, i + 1);
        }
        let mut j: usize = 0;
        while j < section.entries.len()
            invariant
                j <= section.entries@.len(),
                route_table.wf(),
                section == &nav.sections@[i as int],
                all == section_refs(nav.sections@),
                next == done + section.entries@.map_values(
                    |e: crate::state::app::Entry| (e.route@, section.key@),
                ),
                next =~= all.take(next.len() as int),
                next.len() <= all.len(),
                first_unknown(all, *route_table) == first_unknown(all.skip(done.len() + j), *route_table),
            decreases section.entries@.len() - j,
        {
            let entry = &section.entries[j];
            let ghost pos = done.len() + j;
            proof {
                assert(all[pos] == next[pos]);
                assert(next[pos] == (entry.route@, section.key@));
                assert(all.skip(pos).drop_first() =~= all.skip(pos + 1));
                assert(all.skip(pos)[0] == all[pos]);
            }
            if !route_table.contains_key(entry.route.as_str()) {
                let known = route_table.sorted_names();
                let joined = join_strings(&known, ", ");
                let mut m = owned("nav entry references unknown route '");
                m.append(entry.route.as_str());
                m.append("' in section '");
                m.append(section.key.as_str());
                m.append("'; known routes: ");
                m.append(joined.as_str());
                return Err(BlastError::Invalid(m));
            }
            j = j + 1;
        }
        i = i + 1;
    }
    proof {
        assert(nav.sections@.take(nav.sections@.len() as int) =~= nav.sections@);
        assert(all.skip(all.len() as int) =~= Seq::<(Seq<char>, Seq<char>)>::empty());
    }
    Ok(())
}

proof fn lemma_section_refs_prefix(ss: Seq<crate::state::app::Section>, n: int)
    requires
        0 <= n <= ss.len(),
    ensures
        section_refs(ss.take(n)).len() <= section_refs(ss).len(),
        section_refs(ss.take(n)) =~= section_refs(ss).take(section_refs(ss.take(n)).len() as int),
    decreases ss.len(),
{
    if n < ss.len() {
        assert(ss.drop_last().take(n) =~= ss.take(n));
        lemma_section_refs_prefix(ss.drop_last(), n);
    } else {
        assert(ss.take(n) =~= ss);
    }
}

/// Whether a resource gets a create page: generated up to pages, and
/// declaring `Create` with page output.
pub open spec fn has_create_page(r: ResourceState) -> bool {
    &&& r.gen_level.rank() >= GenLevel::Pages.rank()
    &&& verb_lookup(r.verbs@, Verb::Create) matches Some(st) && st.emit_html_page
}

/// A resource's create route is `/<table>/new`, the very path the generated
/// app routes register for its create page.
pub proof fn lemma_create_route_matches_app_routes(r: ResourceState)
    requires
        has_create_page(r),
    ensures
        resource_ops(r).contains((r.name@ + "."@ + "create"@, "/"@ + r.name@ + "/new"@)),
        resource_routes(r).contains((r.name@, "create"@, type_stem_spec(r) + "CreatePage"@, "/"@ + r.name@ + "/new"@)),
{
    let t = r.name@;
    let l = verb_page_op(r, Verb::List, "list"@, "/"@ + t);
    let c = verb_page_op(r, Verb::Create, "create"@, "/"@ + t + "/new"@);
    let e = verb_page_op(r, Verb::Update, "edit"@, "/"@ + t + "/:id/edit"@);
    let d = verb_page_op(r, Verb::Get, "detail"@, "/"@ + t + "/:id"@);
    assert(resource_ops(r) == l + c + e + d);
    assert((l + c + e + d)[l.len() as int] == c[0]);
    let rr = resource_routes(r);
    let pl = crate::codegen::app_routes::runner::page_route(r, Verb::List, "list"@, "ListPage"@, "/"@ + t);
    let pd = crate::codegen::app_routes::runner::page_route(r, Verb::Get, "detail"@, "DetailPage"@, "/"@ + t + "/:id"@);
    let pc = crate::codegen::app_routes::runner::page_route(r, Verb::Create, "create"@, "CreatePage"@, "/"@ + t + "/new"@);
    let pe = crate::codegen::app_routes::runner::page_route(r, Verb::Update, "edit"@, "EditPage"@, "/"@ + t + "/:id/edit"@);
    assert(rr == pl + pd + pc + pe);
    assert((pl + pd + pc + pe)[(pl.len() + pd.len()) as int] == pc[0]);
}

/// Whether a resource gets the page of verb `v`: generated up to pages, and
/// declaring `v` with page output.
pub open spec fn has_page(r: ResourceState, v: Verb) -> bool {
    &&& r.gen_level.rank() >= GenLevel::Pages.rank()
    &&& verb_lookup(r.verbs@, v) matches Some(st) && st.emit_html_page
}

/// Each page route of a resource has the path the generated app routes
/// register for that page: list `/<table>`, edit `/<table>/:id/edit`,
/// detail `/<table>/:id` (create: see above).
pub proof fn lemma_page_routes_match_app_routes(r: ResourceState)
    ensures
        has_page(r, Verb::List) ==> resource_ops(r).contains((r.name@ + "."@ + "list"@, "/"@ + r.name@))
            && resource_routes(r).contains((r.name@, "list"@, type_stem_spec(r) + "ListPage"@, "/"@ + r.name@)),
        has_page(r, Verb::Update) ==> resource_ops(r).contains(
            (r.name@ + "."@ + "edit"@, "/"@ + r.name@ + "/:id/edit"@),
        ) && resource_routes(r).contains(
            (r.name@, "edit"@, type_stem_spec(r) + "EditPage"@, "/"@ + r.name@ + "/:id/edit"@),
        ),
        has_page(r, Verb::Get) ==> resource_ops(r).contains((r.name@ + "."@ + "detail"@, "/"@ + r.name@ + "/:id"@))
            && resource_routes(r).contains(
            (r.name@, "detail"@, type_stem_spec(r) + "DetailPage"@, "/"@ + r.name@ + "/:id"@),
        ),
{
    let n = r.name@;
    let l = verb_page_op(r, Verb::List, "list"@, "/"@ + n);
    let c = verb_page_op(r, Verb::Create, "create"@, "/"@ + n + "/new"@);
    let e = verb_page_op(r, Verb::Update, "edit"@, "/"@ + n + "/:id/edit"@);
    let d = verb_page_op(r, Verb::Get, "detail"@, "/"@ + n + "/:id"@);
    let pl = crate::codegen::app_routes::runner::page_route(r, Verb::List, "list"@, "ListPage"@, "/"@ + n);
    let pd = crate::codegen::app_routes::runner::page_route(r, Verb::Get, "detail"@, "DetailPage"@, "/"@ + n + "/:id"@);
    let pc = crate::codegen::app_routes::runner::page_route(r, Verb::Create, "create"@, "CreatePage"@, "/"@ + n + "/new"@);
    let pe = crate::codegen::app_routes::runner::page_route(r, Verb::Update, "edit"@, "EditPage"@, "/"@ + n + "/:id/edit"@);
    assert(resource_routes(r) == pl + pd + pc + pe);
    let all = pl + pd + pc + pe;
    if r.gen_level.rank() >= GenLevel::Pages.rank() {
        assert(resource_ops(r) == l + c + e + d);
        let ops = l + c + e + d;
        if has_page(r, Verb::List) {
            assert(ops[0] == l[0]);
            assert(all[0] == pl[0]);
        }
        if has_page(r, Verb::Update) {
            assert(ops[(l.len() + c.len()) as int] == e[0]);
            assert(all[(pl.len() + pd.len() + pc.len()) as int] == pe[0]);
        }
        if has_page(r, Verb::Get) {
            assert(ops[(l.len() + c.len() + e.len()) as int] == d[0]);
            assert(all[pl.len() as int] == pd[0]);
        }
    }
}

/// In the route table, the create route of a resource that no later
/// resource shadows (by having the same table name) is `/<table>/new`.
pub proof fn lemma_route_table_create_path(pages: Seq<Page>, rs: Seq<ResourceState>, i: int)
    requires
        0 <= i < rs.len(),
        has_create_page(rs[i]),
        forall|j: int| i < j < rs.len() ==> #[trigger] rs[j].name@ != rs[i].name@,
    ensures
        last_path(route_ops(pages, rs), rs[i].name@ + "."@ + "create"@) == Some("/"@ + rs[i].name@ + "/new"@),
    decreases rs.len(),
{
    let t = rs[i].name@;
    let k = t + "."@ + "create"@;
    let d = rs.drop_last();
    assert(route_ops(pages, rs) =~= route_ops(pages, d) + resource_ops(rs.last()));
    lemma_last_path_concat(route_ops(pages, d), resource_ops(rs.last()), k);
    lemma_resource_ops_create_key(rs.last(), t);
    if i < rs.len() - 1 {
        assert(d[i] == rs[i]);
        assert forall|j: int| i < j < d.len() implies #[trigger] d[j].name@ != d[i].name@ by {
            assert(d[j] == rs[j]);
        }
        lemma_route_table_create_path(pages, d, i);
    }
}

/// The last registration under `k` in `a + b`: `b`'s when it has one.
proof fn lemma_last_path_concat(a: Seq<(Seq<char>, Seq<char>)>, b: Seq<(Seq<char>, Seq<char>)>, k: Seq<char>)
    ensures
        last_path(a + b, k) == (if last_path(b, k) is Some {
            last_path(b, k)
        } else {
            last_path(a, k)
        }),
    decreases b.len(),
{
    if b.len() == 0 {
        assert(a + b =~= a);
    } else {
        assert((a + b).drop_last() =~= a + b.drop_last());
        lemma_last_path_concat(a, b.drop_last(), k);
    }
}

/// Looking up `t.create` among one resource's page routes.
proof fn lemma_resource_ops_create_key(r: ResourceState, t: Seq<char>)
    ensures
        r.name@ != t ==> last_path(resource_ops(r), t + "."@ + "create"@) is None,
        r.name@ == t && has_create_page(r) ==> last_path(resource_ops(r), t + "."@ + "create"@) == Some(
            "/"@ + t + "/new"@,
        ),
{
    let n = r.name@;
    let key = t + "."@ + "create"@;
    let l = verb_page_op(r, Verb::List, "list"@, "/"@ + n);
    let c = verb_page_op(r, Verb::Create, "create"@, "/"@ + n + "/new"@);
    let e = verb_page_op(r, Verb::Update, "edit"@, "/"@ + n + "/:id/edit"@);
    let d = verb_page_op(r, Verb::Get, "detail"@, "/"@ + n + "/:id"@);
    lemma_other_suffix(t, n, "list"@);
    lemma_other_suffix(t, n, "edit"@);
    lemma_other_suffix(t, n, "detail"@);
    lemma_create_key_names(t, n);
    lemma_verb_op_lookup(r, Verb::List, "list"@, "/"@ + n, key);
    lemma_verb_op_lookup(r, Verb::Create, "create"@, "/"@ + n + "/new"@, key);
    lemma_verb_op_lookup(r, Verb::Update, "edit"@, "/"@ + n + "/:id/edit"@, key);
    lemma_verb_op_lookup(r, Verb::Get, "detail"@, "/"@ + n + "/:id"@, key);
    if r.gen_level.rank() < GenLevel::Pages.rank() {
        assert(resource_ops(r) =~= Seq::<(Seq<char>, Seq<char>)>::empty());
    } else {
        assert(resource_ops(r) == l + c + e + d);
        lemma_last_path_concat(l + c + e, d, key);
        lemma_last_path_concat(l + c, e, key);
        lemma_last_path_concat(l, c, key);
    }
}

/// The lookup of `k` in one verb's page route.
proof fn lemma_verb_op_lookup(r: ResourceState, v: Verb, suffix: Seq<char>, path: Seq<char>, k: Seq<char>)
    ensures
        last_path(verb_page_op(r, v, suffix, path), k) == (if verb_page_op(r, v, suffix, path).len() > 0
            && r.name@ + "."@ + suffix == k {
            Some(path)
        } else {
            None
        }),
{
    let o = verb_page_op(r, v, suffix, path);
    let x = (r.name@ + "."@ + suffix, path);
    match verb_lookup(r.verbs@, v) {
        Some(st) => {
            if st.emit_html_page {
                assert(o == seq![x]);
                assert(o.len() == 1 && o.last() == x);
                assert(o.drop_last() =~= Seq::<(Seq<char>, Seq<char>)>::empty());
                assert(last_path(o.drop_last(), k) is None);
            } else {
                assert(o =~= Seq::<(Seq<char>, Seq<char>)>::empty());
            }
        },
        None => {
            assert(o =~= Seq::<(Seq<char>, Seq<char>)>::empty());
        },
    }
}

/// `t.create` is no other verb's route name.
proof fn lemma_other_suffix(t: Seq<char>, n: Seq<char>, s: Seq<char>)
    requires
        s == "list"@ || s == "edit"@ || s == "detail"@,
    ensures
        n + "."@ + s != t + "."@ + "create"@,
{
    reveal_strlit("list");
    reveal_strlit("edit");
    reveal_strlit("detail");
    reveal_strlit("create");
    reveal_strlit(".");
    let a = n + "."@ + s;
    let b = t + "."@ + "create"@;
    assert(b[b.len() - 1] == 'e');
    assert(a[a.len() - 1] == s[s.len() - 1]);
}

/// `t.create` names only the create route of table `t`.
proof fn lemma_create_key_names(t: Seq<char>, n: Seq<char>)
    ensures
        n + "."@ + "create"@ == t + "."@ + "create"@ ==> n == t,
{
    let a = n + "."@ + "create"@;
    let b = t + "."@ + "create"@;
    if a == b {
        assert(a.len() == n.len() + "."@.len() + "create"@.len());
        assert(b.len() == t.len() + "."@.len() + "create"@.len());
        assert(n.len() == t.len());
        assert(n =~= a.subrange(0, n.len() as int));
        assert(t =~= b.subrange(0, t.len() as int));
        assert(n =~= t);
    }
}

} // verus!
