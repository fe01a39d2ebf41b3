//! The nav inventory: a static slice of sections and entries that the
//! hand-written navigation component iterates.
use vstd::prelude::*;
use vstd::string::*;
use crate::codegen::leptos_nav::runner::RouteTable;
use crate::state::app::{Entry, NavConfig, Role, Section};
use crate::text::{
    char_to_lower, char_to_upper, chars_of, concat_map, escape_double_quoted, escape_dq, is_ws, join, join_strings,
    lemma_concat_map_all, lemma_concat_map_step, lower_of, owned, push_char, trim, trim_seq, upper_of, views,
};

verus! {

/// `UserRole` variant of a state-file role (`User` is `Member`).
pub open spec fn role_variant(r: Role) -> Seq<char> {
    match r {
        Role::Admin => "Admin"@,
        Role::User => "Member"@,
    }
}

fn canonical_role_variant(role: Role) -> (r: &'static str)
    ensures
        r@ == role_variant(role),
{
    match role {
        Role::Admin => "Admin",
        Role::User => "Member",
    }
}

/// A role list that gates something (present and non-empty).
pub open spec fn gated(roles: Option<Vec<Role>>) -> bool {
    roles matches Some(v) && v@.len() > 0
}

/// Rust string literal of a value.
pub open spec fn lit_spec(s: Seq<char>) -> Seq<char> {
    "\""@ + escape_dq(s) + "\""@
}

fn lit(value: &str) -> (r: String)
    ensures
        r@ == lit_spec(value@),
{
    let e = escape_double_quoted(value);
    let mut out = owned("\"");
    out.append(e.as_str());
    out.append("\"");
    out
}

pub open spec fn role_names(roles: Seq<Role>) -> Seq<Seq<char>> {
    roles.map_values(|r: Role| "UserRole::"@ + role_variant(r))
}

/// `&[UserRole::..., ...]`, or `&[]` when ungated.
pub open spec fn roles_spec(roles: Option<Vec<Role>>) -> Seq<char> {
    match roles {
        Some(v) => if v@.len() > 0 {
            "&["@ + join(role_names(v@), ", "@) + "]"@
        } else {
            "&[]"@
        },
        None => "&[]"@,
    }
}

fn roles_lit(roles: &Option<Vec<Role>>) -> (r: String)
    ensures
        r@ == roles_spec(*roles),
{
    match roles {
        None => owned("&[]"),
        Some(list) => {
            if list.len() == 0 {
                return owned("&[]");
            }
            let mut parts: Vec<String> = Vec::new();
            let mut i: usize = 0;
            while i < list.len()
                invariant
                    i <= list@.len(),
                    views(parts@) == role_names(list@.take(i as int)),
                decreases list@.len() - i,
            {
                let mut p = owned("UserRole::");
                p.append(canonical_role_variant(list[i]));
                let ghost before = views(parts@);
                let ghost pv = p@;
                parts.push(p);
                assert(views(parts@) =~= before.push(pv));
                assert(role_names(list@.take(i + 1)) =~= role_names(list@.take(i as int)).push(pv));
                i = i + 1;
            }
            assert(list@.take(list@.len() as int) =~= list@);
            let j = join_strings(&parts, ", ");
            let mut out = owned("&[");
            out.append(j.as_str());
            out.append("]");
            out
        },
    }
}

/// PascalCase of an icon name: `-`, `_` and space start a word; the first
/// character of a word is upper-cased, the others lower-cased.
pub open spec fn icon_words(s: Seq<char>, up: bool) -> Seq<char>
    decreases s.len(),
{
    if s.len() == 0 {
        seq![]
    } else {
        let c = s[0];
        if c == '-' || c == '_' || c == ' ' {
            icon_words(s.drop_first(), true)
        } else if up {
            upper_of(c) + icon_words(s.drop_first(), false)
        } else {
            lower_of(c) + icon_words(s.drop_first(), false)
        }
    }
}

/// `IconKind` variant of a state-file icon name; none for a missing or
/// blank name.
pub open spec fn icon_spec(raw: Option<String>) -> Option<Seq<char>> {
    match raw {
        None => None,
        Some(s) => {
            let t = trim_seq(s@);
            if t.len() == 0 {
                None
            } else {
                Some(icon_words(t, true))
            }
        },
    }
}

fn icon_lit(raw: &Option<String>) -> (r: Option<String>)
    ensures
        match r {
            Some(v) => icon_spec(*raw) == Some(v@),
            None => icon_spec(*raw) is None,
        },
{
    let s = match raw {
        Some(s) => s,
        None => {
            return None;
        },
    };
    let trimmed = trim(s.as_str());
    if trimmed.as_str().unicode_len() == 0 {
        return None;
    }
    let cs = chars_of(trimmed.as_str());
    let mut out = String::new();
    let mut up = true;
    let mut i: usize = 0;
    assert(cs@.subrange(0, cs.len() as int) =~= cs@);
    assert(out@ + icon_words(cs@, true) =~= icon_words(cs@, true));
    while i < cs.len()
        invariant
            i <= cs.len(),
            cs@ == trimmed@,
            icon_words(cs@, true) == out@ + icon_words(cs@.subrange(i as int, cs.len() as int), up),
        decreases cs.len() - i,
    {
        let c = cs[i];
        let ghost rest = cs@.subrange(i as int, cs.len() as int);
        assert(rest.drop_first() =~= cs@.subrange(i + 1, cs.len() as int));
        if c == '-' || c == '_' || c == ' ' {
            up = true;
        } else if up {
            let u = char_to_upper(c);
            out.append(u.as_str());
            up = false;
        } else {
            let l = char_to_lower(c);
            out.append(l.as_str());
        }
        i = i + 1;
        assert(icon_words(cs@, true) =~= out@ + icon_words(cs@.subrange(i as int, cs.len() as int), up));
    }
    Some(out)
}

/// Resolved path of a route: its table path, else `/<route>`.
pub open spec fn entry_path(table: RouteTable, route: Seq<char>) -> Seq<char> {
    match table.lookup(route) {
        Some(p) => p,
        None => "/"@ + route,
    }
}

pub open spec fn entry_spec(table: RouteTable, e: Entry) -> Seq<char> {
    let label = match e.label {
        Some(l) => l@,
        None => e.route@,
    };
    let icon = match icon_spec(e.icon) {
        Some(v) => "Some(IconKind::"@ + v + ")"@,
        None => "None"@,
    };
    "            NavEntry {\n                path: "@ + lit_spec(entry_path(table, e.route@)) + ",\n                label: "@
        + lit_spec(label) + ",\n                icon: "@ + icon + ",\n                roles: "@ + roles_spec(e.roles)
        + ",\n            },\n"@
}

pub open spec fn entry_piece(table: RouteTable) -> spec_fn(Entry) -> Seq<char> {
    |e: Entry| entry_spec(table, e)
}

fn render_entry(entry: &Entry, table: &RouteTable) -> (r: String)
    requires
        table.wf(),
    ensures
        r@ == entry_spec(*table, *entry),
{
    let path = match table.get(entry.route.as_str()) {
        Some(r) => owned(r.path.as_str()),
        None => {
            let mut p = owned("/");
            p.append(entry.route.as_str());
            p
        },
    };
    let label = match &entry.label {
        Some(v) => owned(v.as_str()),
        None => owned(entry.route.as_str()),
    };
    let icon = match icon_lit(&entry.icon) {
        Some(variant) => {
            let mut s = owned("Some(IconKind::");
            s.append(variant.as_str());
            s.append(")");
            s
        },
        None => owned("None"),
    };
    let pl = lit(path.as_str());
    let ll = lit(label.as_str());
    let rl = roles_lit(&entry.roles);
    let mut out = owned("            NavEntry {\n                path: ");
    out.append(pl.as_str());
    out.append(",\n                label: ");
    out.append(ll.as_str());
    out.append(",\n                icon: ");
    out.append(icon.as_str());
    out.append(",\n                roles: ");
    out.append(rl.as_str());
    out.append(",\n            },\n");
    out
}

fn render_entries(entries: &Vec<Entry>, table: &RouteTable) -> (r: String)
    requires
        table.wf(),
    ensures
        r@ == concat_map(entries@, entry_piece(*table)),
{
    let ghost g = entry_piece(*table);
    let mut out = String::new();
    let mut i: usize = 0;
    assert(entries@.take(0) =~= Seq::<Entry>::empty());
    while i < entries.len()
        invariant
            i <= entries@.len(),
            table.wf(),
            g == entry_piece(*table),
            out@ == concat_map(entries@.take(i as int), g),
        decreases entries@.len() - i,
    {
        let piece = render_entry(&entries[i], table);
        out.append(piece.as_str());
        proof {
            lemma_concat_map_step(entries@, i as int, g);
        }
        i = i + 1;
    }
    proof {
        lemma_concat_map_all(entries@, g);
    }
    out
}

pub open spec fn section_spec(table: RouteTable, s: Section) -> Seq<char> {
    "    NavSection {\n        key: "@ + lit_spec(s.key@) + ",\n        label: "@ + lit_spec(s.label@)
        + ",\n        roles: "@ + roles_spec(s.roles) + ",\n        entries: &[\n"@ + concat_map(
        s.entries@,
        entry_piece(table),
    ) + "        ],\n    },\n"@
}

pub open spec fn section_piece(table: RouteTable) -> spec_fn(Section) -> Seq<char> {
    |s: Section| section_spec(table, s)
}

fn render_section(section: &Section, table: &RouteTable) -> (r: String)
    requires
        table.wf(),
    ensures
        r@ == section_spec(*table, *section),
{
    let kl = lit(section.key.as_str());
    let ll = lit(section.label.as_str());
    let rl = roles_lit(&section.roles);
    let es = render_entries(&section.entries, table);
    let mut out = owned("    NavSection {\n        key: ");
    out.append(kl.as_str());
    out.append(",\n        label: ");
    out.append(ll.as_str());
    out.append(",\n        roles: ");
    out.append(rl.as_str());
    out.append(",\n        entries: &[\n");
    out.append(es.as_str());
    out.append("        ],\n    },\n");
    out
}

/// Some section or entry is role-gated.
pub open spec fn needs_roles(nav: NavConfig) -> bool {
    exists|i: int|
        0 <= i < nav.sections@.len() && (gated(#[trigger] nav.sections@[i].roles) || exists|j: int|
            0 <= j < nav.sections@[i].entries@.len() && gated(#[trigger] nav.sections@[i].entries@[j].roles))
}

/// Some entry has an icon.
pub open spec fn needs_icons(nav: NavConfig) -> bool {
    exists|i: int, j: int|
        0 <= i < nav.sections@.len() && 0 <= j < nav.sections@[i].entries@.len() && (icon_spec(
            #[trigger] nav.sections@[i].entries@[j].icon,
        ) is Some)
}

fn is_gated(roles: &Option<Vec<Role>>) -> (r: bool)
    ensures
        r == gated(*roles),
{
    match roles {
        Some(v) => v.len() > 0,
        None => false,
    }
}

fn scan_nav(nav: &NavConfig) -> (r: (bool, bool))
    ensures
        r.0 == needs_roles(*nav),
        r.1 == needs_icons(*nav),
{
    let mut roles = false;
    let mut icons = false;
    let mut i: usize = 0;
    while i < nav.sections.len()
        invariant
            i <= nav.sections@.len(),
            roles == exists|a: int|
                0 <= a < i && (gated(#[trigger] nav.sections@[a].roles) || exists|j: int|
                    0 <= j < nav.sections@[a].entries@.len() && gated(#[trigger] nav.sections@[a].entries@[j].roles)),
            icons == exists|a: int, j: int|
                0 <= a < i && 0 <= j < nav.sections@[a].entries@.len() && (icon_spec(
                    #[trigger] nav.sections@[a].entries@[j].icon,
                ) is Some),
        decreases nav.sections@.len() - i,
    {
        let section = &nav.sections[i];
        let mut sec_roles = is_gated(&section.roles);
        let mut sec_icons = false;
        let mut j: usize = 0;
        while j < section.entries.len()
            invariant
                j <= section.entries@.len(),
                section == &nav.sections@[i as int],
                sec_roles == (gated(section.roles) || exists|b: int|
                    0 <= b < j && gated(#[trigger] section.entries@[b].roles)),
                sec_icons == exists|b: int| 0 <= b < j && (icon_spec(#[trigger] section.entries@[b].icon) is Some),
            decreases section.entries@.len() - j,
        {
            if is_gated(&section.entries[j].roles) {
                sec_roles = true;
            }
            if icon_lit(&section.entries[j].icon).is_some() {
                sec_icons = true;
            }
            j = j + 1;
        }
        roles = roles || sec_roles;
        icons = icons || sec_icons;
        i = i + 1;
    }
    (roles, icons)
}

/// `nav/inventory.rs`: the imports it needs, then `NAV_INVENTORY`.
pub open spec fn inventory_spec(nav: NavConfig, table: RouteTable) -> Seq<char> {
    (if needs_icons(nav) { "use crate::structs::custom::icons::IconKind;\n"@ } else { Seq::<char>::empty() }) + (if needs_roles(
        nav,
    ) {
        "use crate::structs::generated::UserRole;\n"@
    } else {
        Seq::<char>::empty()
    })
        + "use crate::structs::vendored::leptos::{NavEntry, NavSection};\n\npub static NAV_INVENTORY: &[NavSection] = &[\n"@
        + concat_map(nav.sections@, section_piece(table)) + "];\n"@
}

/// Render the nav inventory of an app against its route table.
pub fn render_inventory(nav: &NavConfig, route_table: &RouteTable) -> (r: String)
    requires
        route_table.wf(),
    ensures
        r@ == inventory_spec(*nav, *route_table),
{
    let (needs_role_import, needs_icon_import) = scan_nav(nav);
    let mut out = String::new();
    if needs_icon_import {
        out.append("use crate::structs::custom::icons::IconKind;\n");
    }
    let ghost a = out@;
    if needs_role_import {
        out.append("use crate::structs::generated::UserRole;\n");
    }
    let ghost b = out@;
    out.append("use crate::structs::vendored::leptos::{NavEntry, NavSection};\n\npub static NAV_INVENTORY: &[NavSection] = &[\n");
    let ghost g = section_piece(*route_table);
    let ghost head = out@;
    let mut i: usize = 0;
    assert(nav.sections@.take(0) =~= Seq::<Section>::empty());
    while i < nav.sections.len()
        invariant
            i <= nav.sections@.len(),
            route_table.wf(),
            g == section_piece(*route_table),
            out@ == head + concat_map(nav.sections@.take(i as int), g),
        decreases nav.sections@.len() - i,
    {
        let piece = render_section(&nav.sections[i], route_table);
        out.append(piece.as_str());
        proof {
            lemma_concat_map_step(nav.sections@, i as int, g);
        }
        i = i + 1;
    }
    proof {
        lemma_concat_map_all(nav.sections@, g);
    }
    out.append("];\n");
    assert(out@ =~= inventory_spec(*nav, *route_table));
    out
}

} // verus!
