//! The `<AdminCrudMenu/>` component: one card per resource with links to
//! its CRUD pages.
use vstd::prelude::*;
use vstd::string::*;
use crate::codegen::structs_naming::{type_stem_for_resource, type_stem_spec};
use crate::state::{verb_lookup, ResourceState, Verb};
use crate::text::{concat_map, lemma_concat_map_all, lemma_concat_map_step, owned, seq_le, str_le};

verus! {

/// What the menu shows of one resource.
pub struct ResourceMenuEntry {
    pub table: String,
    pub stem: String,
    pub has_list: bool,
    pub has_create: bool,
    pub has_get: bool,
    pub has_update: bool,
}

/// (table, stem, list, create, get, update) of a menu entry.
pub type MenuView = (Seq<char>, Seq<char>, bool, bool, bool, bool);

pub open spec fn menu_view(e: ResourceMenuEntry) -> MenuView {
    (e.table@, e.stem@, e.has_list, e.has_create, e.has_get, e.has_update)
}

pub open spec fn menu_views(s: Seq<ResourceMenuEntry>) -> Seq<MenuView> {
    s.map_values(|e: ResourceMenuEntry| menu_view(e))
}

/// The verb is declared with an HTML page.
pub open spec fn emits_page(r: ResourceState, v: Verb) -> bool {
    verb_lookup(r.verbs@, v) matches Some(st) && st.emit_html_page
}

fn emit_html(r: &ResourceState, v: Verb) -> (b: bool)
    ensures
        b == emits_page(*r, v),
{
    match r.verb_state(v) {
        Some(state) => state.emit_html_page,
        None => false,
    }
}

pub open spec fn entry_of(r: ResourceState) -> MenuView {
    (
        r.name@,
        type_stem_spec(r),
        emits_page(r, Verb::List),
        emits_page(r, Verb::Create),
        emits_page(r, Verb::Get),
        emits_page(r, Verb::Update),
    )
}

/// `x` inserted after the last element whose table is not greater than its
/// own (stable insertion).
pub open spec fn insert_by_table(s: Seq<MenuView>, x: MenuView) -> Seq<MenuView>
    decreases s.len(),
{
    if s.len() == 0 {
        seq![x]
    } else if seq_le(s.last().0, x.0) {
        s.push(x)
    } else {
        insert_by_table(s.drop_last(), x).push(s.last())
    }
}

/// Stable sort by table name.
pub open spec fn sort_by_table(s: Seq<MenuView>) -> Seq<MenuView>
    decreases s.len(),
{
    if s.len() == 0 {
        seq![]
    } else {
        insert_by_table(sort_by_table(s.drop_last()), s.last())
    }
}

pub open spec fn entries_spec(rs: Seq<ResourceState>) -> Seq<MenuView> {
    sort_by_table(rs.map_values(|r: ResourceState| entry_of(r)))
}

proof fn lemma_insert_at(s: Seq<MenuView>, x: MenuView, k: int)
    requires
        0 <= k <= s.len(),
        forall|j: int| k <= j < s.len() ==> !seq_le(#[trigger] s[j].0, x.0),
        k > 0 ==> seq_le(s[k - 1].0, x.0),
    ensures
        insert_by_table(s, x) == s.insert(k, x),
    decreases s.len(),
{
    if s.len() == 0 {
        assert(s.insert(k, x) =~= seq![x]);
    } else if k == s.len() {
        assert(s.insert(k, x) =~= s.push(x));
    } else {
        assert(!seq_le(s.last().0, x.0));
        lemma_insert_at(s.drop_last(), x, k);
        assert(s.insert(k, x) =~= s.drop_last().insert(k, x).push(s.last()));
    }
}

/// One entry per resource, sorted by table name (stable).
pub fn collect_entries(resources: &[ResourceState]) -> (r: Vec<ResourceMenuEntry>)
    ensures
        menu_views(r@) == entries_spec(resources@),
{
    let ghost src = resources@.map_values(|r: ResourceState| entry_of(r));
    let mut out: Vec<ResourceMenuEntry> = Vec::new();
    let mut i: usize = 0;
    assert(src.take(0) =~= Seq::<MenuView>::empty());
    assert(menu_views(out@) =~= Seq::<MenuView>::empty());
    while i < resources.len()
        invariant
            i <= resources@.len(),
            src == resources@.map_values(|r: ResourceState| entry_of(r)),
            menu_views(out@) == sort_by_table(src.take(i as int)),
        decreases resources@.len() - i,
    {
        let r = &resources[i];
        let entry = ResourceMenuEntry {
            table: owned(r.name.as_str()),
            stem: type_stem_for_resource(r),
            has_list: emit_html(r, Verb::List),
            has_create: emit_html(r, Verb::Create),
            has_get: emit_html(r, Verb::Get),
            has_update: emit_html(r, Verb::Update),
        };
        let ghost x = menu_view(entry);
        assert(x == src[i as int]);
        let mut k: usize = out.len();
        while k > 0 && !str_le(out[k - 1].table.as_str(), entry.table.as_str())
            invariant
                k <= out@.len(),
                x == menu_view(entry),
                forall|j: int| k <= j < out@.len() ==> !seq_le(#[trigger] menu_views(out@)[j].0, x.0),
            decreases k,
        {
            k = k - 1;
        }
        let ghost before = menu_views(out@);
        proof {
            lemma_insert_at(before, x, k as int);
        }
        out.insert(k, entry);
        assert(menu_views(out@) =~= before.insert(k as int, x));
        assert(src.take(i + 1).drop_last() =~= src.take(i as int));
        i = i + 1;
    }
    assert(src.take(resources@.len() as int) =~= src);
    out
}

/// Component header shared by both forms of the menu.
pub const MENU_HEAD: &'static str = "use ::leptos::prelude::*;\n\n/// Auto-emitted admin shortcut menu — one card per resource at\n/// gen_level >= Pages, with direct links to its CRUD pages.\n#[component]\npub fn AdminCrudMenu() -> impl IntoView {\n";

/// Body of the menu when no resource has pages.
pub const MENU_EMPTY: &'static str = "    view! {\n        <div class=\"admin-crud-menu admin-crud-menu--empty\">\n            <p>\"No resources at gen_level >= Pages yet — run \"<code>\"blast migration\"</code>\" to scaffold one.\"</p>\n        </div>\n    }\n}\n";

pub const MENU_OPEN: &'static str = "    view! {\n        <ul class=\"admin-crud-menu\">\n";

pub const MENU_CLOSE: &'static str = "        </ul>\n    }\n}\n";

/// One resource's card: its heading and the links its pages allow. A detail
/// hint appears only without a list page, an edit hint only without list and
/// detail pages.
pub open spec fn menu_entry_spec(e: MenuView) -> Seq<char> {
    "            <li class=\"admin-crud-menu__resource\">\n                <h3 class=\"admin-crud-menu__title\">\""@
            + e.1
            + "\"</h3>\n                <ul class=\"admin-crud-menu__actions\">\n"@
        + (if e.2 {
            "                    <li><a class=\"admin-crud-menu__link\" href=\"/"@
            + e.0
            + "\">\"List\"</a></li>\n"@
        } else {
            Seq::<char>::empty()
        }) + (if e.3 {
            "                    <li><a class=\"admin-crud-menu__link\" href=\"/"@
            + e.0
            + "/new\">\"+ New\"</a></li>\n"@
        } else {
            Seq::<char>::empty()
        }) + (if e.4 && !e.2 {
            "                    <li><span class=\"admin-crud-menu__link admin-crud-menu__link--hint\">\"Detail at /"@
            + e.0
            + "/:id\"</span></li>\n"@
        } else {
            Seq::<char>::empty()
        }) + (if e.5 && !e.4 && !e.2 {
            "                    <li><span class=\"admin-crud-menu__link admin-crud-menu__link--hint\">\"Edit at /"@
            + e.0
            + "/:id/edit\"</span></li>\n"@
        } else {
            Seq::<char>::empty()
        }) + "                </ul>\n            </li>\n"@
}

pub open spec fn menu_piece() -> spec_fn(MenuView) -> Seq<char> {
    |e: MenuView| menu_entry_spec(e)
}

fn render_menu_entry(entry: &ResourceMenuEntry) -> (r: String)
    ensures
        r@ == menu_entry_spec(menu_view(*entry)),
{
    let t = entry.table.as_str();
    let s = entry.stem.as_str();
    let mut out = owned("            <li class=\"admin-crud-menu__resource\">\n                <h3 class=\"admin-crud-menu__title\">\"");
    out.append(s);
    out.append("\"</h3>\n                <ul class=\"admin-crud-menu__actions\">\n");
    let ghost a = out@;
    if entry.has_list {
        out.append("                    <li><a class=\"admin-crud-menu__link\" href=\"/");
        out.append(t);
        out.append("\">\"List\"</a></li>\n");
    }
    let ghost b = out@;
    if entry.has_create {
        out.append("                    <li><a class=\"admin-crud-menu__link\" href=\"/");
        out.append(t);
        out.append("/new\">\"+ New\"</a></li>\n");
    }
    let ghost c = out@;
    if entry.has_get && !entry.has_list {
        out.append("                    <li><span class=\"admin-crud-menu__link admin-crud-menu__link--hint\">\"Detail at /");
        out.append(t);
        out.append("/:id\"</span></li>\n");
    }
    let ghost d = out@;
    if entry.has_update && !entry.has_get && !entry.has_list {
        out.append("                    <li><span class=\"admin-crud-menu__link admin-crud-menu__link--hint\">\"Edit at /");
        out.append(t);
        out.append("/:id/edit\"</span></li>\n");
    }
    let ghost f = out@;
    out.append("                </ul>\n            </li>\n");
    assert(out@ =~= menu_entry_spec(menu_view(*entry)));
    out
}

/// The `AdminCrudMenu` component: a placeholder without entries, else one
/// card per entry in the given order.
pub open spec fn menu_spec(entries: Seq<MenuView>) -> Seq<char> {
    if entries.len() == 0 {
        MENU_HEAD@ + MENU_EMPTY@
    } else {
        MENU_HEAD@ + MENU_OPEN@ + concat_map(entries, menu_piece()) + MENU_CLOSE@
    }
}

/// Render the admin CRUD menu component.
pub fn render_admin_crud_menu(entries: &[ResourceMenuEntry]) -> (r: String)
    ensures
        r@ == menu_spec(menu_views(entries@)),
{
    let mut out = owned(MENU_HEAD);
    if entries.len() == 0 {
        out.append(MENU_EMPTY);
        return out;
    }
    out.append(MENU_OPEN);
    let ghost vs = menu_views(entries@);
    let ghost head = out@;
    let mut i: usize = 0;
    assert(vs.take(0) =~= Seq::<MenuView>::empty());
    while i < entries.len()
        invariant
            i <= entries@.len(),
            vs == menu_views(entries@),
            out@ == head + concat_map(vs.take(i as int), menu_piece()),
        decreases entries@.len() - i,
    {
        let piece = render_menu_entry(&entries[i]);
        out.append(piece.as_str());
        proof {
            lemma_concat_map_step(vs, i as int, menu_piece());
        }
        i = i + 1;
    }
    proof {
        lemma_concat_map_all(vs, menu_piece());
    }
    out.append(MENU_CLOSE);
    out
}

} // verus!
