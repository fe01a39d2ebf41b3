//! What the auth emitter writes: the fixed auth files, and the lines it
//! adds to the barrels of the other generators.
use vstd::prelude::*;
use vstd::string::*;
use crate::codegen::auth_emitter::templates::{
    FLOWS_AUTH_LOGIN, FLOWS_AUTH_LOGOUT, FLOWS_AUTH_ME, FLOWS_AUTH_MOD, FLOWS_AUTH_REGISTER, HTTP_AUTH, LEPTOS_LOGIN,
    LEPTOS_LOGOUT, LEPTOS_PROFILE, LEPTOS_PROFILE_SCSS, LEPTOS_REGISTER, MODELS_USERS, ROUTINES_AUTH_LOGIN,
    ROUTINES_AUTH_LOGOUT, ROUTINES_AUTH_ME, ROUTINES_AUTH_MOD, ROUTINES_AUTH_REGISTER, STRUCTS_AUTH_LOGIN,
    STRUCTS_AUTH_MOD, STRUCTS_AUTH_REGISTER, STRUCTS_USERS,
};
use crate::codegen::pipeline::needs_write_spec;
use crate::text::{
    concat_map, is_ws, lemma_concat_map_all, lemma_concat_map_step, lines_from, owned, seq_ends_with, split_lines,
    str_ends_with, str_eq, str_lines, strip_cr, trim, trim_end_seq, trim_seq, trim_start_seq, views,
};

verus! {

/// Files a generator run wrote and files it left unchanged.
pub struct EmitReport {
    pub written: Vec<String>,
    pub skipped: Vec<String>,
}

impl EmitReport {
    pub fn new() -> (r: Self)
        ensures
            r.written@.len() == 0,
            r.skipped@.len() == 0,
    {
        EmitReport { written: Vec::new(), skipped: Vec::new() }
    }
}

pub open spec fn pair_views(v: Seq<(String, String)>) -> Seq<(Seq<char>, Seq<char>)> {
    v.map_values(|p: (String, String)| (p.0@, p.1@))
}

/// (path, body) of every auth file, each body after the marker except the
/// stylesheet. Without a users primer the auth emitter also owns the users
/// struct and model modules.
pub open spec fn auth_files_spec(has_users_primer: bool, marker: Seq<char>) -> Seq<(Seq<char>, Seq<char>)> {
    (if has_users_primer {
        seq![]
    } else {
        seq![("src/structs/generated/users.rs"@, marker + STRUCTS_USERS@)]
    }) + seq![
        ("src/structs/generated/auth/login.rs"@, marker + STRUCTS_AUTH_LOGIN@),
        ("src/structs/generated/auth/register.rs"@, marker + STRUCTS_AUTH_REGISTER@),
        ("src/structs/generated/auth/mod.rs"@, marker + STRUCTS_AUTH_MOD@),
    ] + (if has_users_primer {
        seq![]
    } else {
        seq![("src/models/generated/users.rs"@, marker + MODELS_USERS@)]
    }) + seq![
        ("src/routines/generated/auth/login.rs"@, marker + ROUTINES_AUTH_LOGIN@),
        ("src/routines/generated/auth/register.rs"@, marker + ROUTINES_AUTH_REGISTER@),
        ("src/routines/generated/auth/logout.rs"@, marker + ROUTINES_AUTH_LOGOUT@),
        ("src/routines/generated/auth/me.rs"@, marker + ROUTINES_AUTH_ME@),
        ("src/routines/generated/auth/mod.rs"@, marker + ROUTINES_AUTH_MOD@),
        ("src/flows/generated/auth/login.rs"@, marker + FLOWS_AUTH_LOGIN@),
        ("src/flows/generated/auth/register.rs"@, marker + FLOWS_AUTH_REGISTER@),
        ("src/flows/generated/auth/logout.rs"@, marker + FLOWS_AUTH_LOGOUT@),
        ("src/flows/generated/auth/me.rs"@, marker + FLOWS_AUTH_ME@),
        ("src/flows/generated/auth/mod.rs"@, marker + FLOWS_AUTH_MOD@),
        ("src/transport/http/generated/auth.rs"@, marker + HTTP_AUTH@),
        ("src/transport/leptos/pages/generated/login.rs"@, marker + LEPTOS_LOGIN@),
        ("src/transport/leptos/pages/generated/register.rs"@, marker + LEPTOS_REGISTER@),
        ("src/transport/leptos/pages/generated/logout.rs"@, marker + LEPTOS_LOGOUT@),
        ("src/transport/leptos/pages/generated/profile.rs"@, marker + LEPTOS_PROFILE@),
        ("src/transport/leptos/pages/generated/profile.module.scss"@, LEPTOS_PROFILE_SCSS@),
    ]
}

fn push_marked(v: &mut Vec<(String, String)>, path: &str, marker: &str, body: &str)
    ensures
        pair_views(final(v)@) == pair_views(old(v)@).push((path@, marker@ + body@)),
{
    let mut b = owned(marker);
    b.append(body);
    let ghost before = pair_views(v@);
    let ghost pv = (path@, b@);
    v.push((owned(path), b));
    assert(pair_views(v@) =~= before.push(pv));
}

/// The auth files in write order.
pub fn auth_files(has_users_primer: bool, marker: &str) -> (r: Vec<(String, String)>)
    ensures
        pair_views(r@) == auth_files_spec(has_users_primer, marker@),
{
    let mut v: Vec<(String, String)> = Vec::new();
    if !has_users_primer {
        push_marked(&mut v, "src/structs/generated/users.rs", marker, STRUCTS_USERS);
    }
    let ghost a = pair_views(v@);
    push_marked(&mut v, "src/structs/generated/auth/login.rs", marker, STRUCTS_AUTH_LOGIN);
    push_marked(&mut v, "src/structs/generated/auth/register.rs", marker, STRUCTS_AUTH_REGISTER);
    push_marked(&mut v, "src/structs/generated/auth/mod.rs", marker, STRUCTS_AUTH_MOD);
    let ghost b = pair_views(v@);
    if !has_users_primer {
        push_marked(&mut v, "src/models/generated/users.rs", marker, MODELS_USERS);
    }
    let ghost c = pair_views(v@);
    push_marked(&mut v, "src/routines/generated/auth/login.rs", marker, ROUTINES_AUTH_LOGIN);
    push_marked(&mut v, "src/routines/generated/auth/register.rs", marker, ROUTINES_AUTH_REGISTER);
    push_marked(&mut v, "src/routines/generated/auth/logout.rs", marker, ROUTINES_AUTH_LOGOUT);
    push_marked(&mut v, "src/routines/generated/auth/me.rs", marker, ROUTINES_AUTH_ME);
    push_marked(&mut v, "src/routines/generated/auth/mod.rs", marker, ROUTINES_AUTH_MOD);
    push_marked(&mut v, "src/flows/generated/auth/login.rs", marker, FLOWS_AUTH_LOGIN);
    push_marked(&mut v, "src/flows/generated/auth/register.rs", marker, FLOWS_AUTH_REGISTER);
    push_marked(&mut v, "src/flows/generated/auth/logout.rs", marker, FLOWS_AUTH_LOGOUT);
    push_marked(&mut v, "src/flows/generated/auth/me.rs", marker, FLOWS_AUTH_ME);
    push_marked(&mut v, "src/flows/generated/auth/mod.rs", marker, FLOWS_AUTH_MOD);
    push_marked(&mut v, "src/transport/http/generated/auth.rs", marker, HTTP_AUTH);
    push_marked(&mut v, "src/transport/leptos/pages/generated/login.rs", marker, LEPTOS_LOGIN);
    push_marked(&mut v, "src/transport/leptos/pages/generated/register.rs", marker, LEPTOS_REGISTER);
    push_marked(&mut v, "src/transport/leptos/pages/generated/logout.rs", marker, LEPTOS_LOGOUT);
    push_marked(&mut v, "src/transport/leptos/pages/generated/profile.rs", marker, LEPTOS_PROFILE);
    let ghost d = pair_views(v@);
    let ghost before = pair_views(v@);
    v.push((owned("src/transport/leptos/pages/generated/profile.module.scss"), owned(LEPTOS_PROFILE_SCSS)));
    assert(pair_views(v@) =~= before.push(
        ("src/transport/leptos/pages/generated/profile.module.scss"@, LEPTOS_PROFILE_SCSS@),
    ));
    assert(pair_views(v@) =~= auth_files_spec(has_users_primer, marker@));
    v
}

/// Lines the structs barrel must contain.
pub open spec fn structs_barrel_entries(has_users_primer: bool) -> Seq<Seq<char>> {
    seq!["pub mod auth;"@, "pub mod enums;"@] + if has_users_primer {
        seq![]
    } else {
        seq![
            "pub mod users;"@,
            "pub use enums::UserRole;"@,
            "pub use users::UserPublic;"@,
            "#[cfg(not(target_arch = \"wasm32\"))]"@,
            "pub use users::{NewUser, User};"@,
        ]
    }
}

/// Lines the pages barrel must contain (in lexicographic order).
pub open spec fn pages_barrel_entries() -> Seq<Seq<char>> {
    seq![
        "pub mod login;"@,
        "pub mod logout;"@,
        "pub mod profile;"@,
        "pub mod register;"@,
        "pub use login::LoginPage;"@,
        "pub use logout::LogoutPage;"@,
        "pub use profile::ProfilePage;"@,
        "pub use register::RegisterPage;"@,
    ]
}

/// (barrel path, required lines) of every barrel the auth files must be
/// reachable from; the models barrel only without a users primer.
pub open spec fn barrel_plan_spec(has_users_primer: bool) -> Seq<(Seq<char>, Seq<Seq<char>>)> {
    seq![("src/structs/generated/mod.rs"@, structs_barrel_entries(has_users_primer))] + (if has_users_primer {
        seq![]
    } else {
        seq![("src/models/generated/mod.rs"@, seq!["pub mod users;"@])]
    }) + seq![
        ("src/routines/generated/mod.rs"@, seq!["pub mod auth;"@]),
        ("src/flows/generated/mod.rs"@, seq!["pub mod auth;"@]),
        ("src/transport/http/generated/mod.rs"@, seq!["pub mod auth;"@]),
        ("src/transport/leptos/pages/generated/mod.rs"@, pages_barrel_entries()),
    ]
}

pub open spec fn plan_views(v: Seq<(String, Vec<String>)>) -> Seq<(Seq<char>, Seq<Seq<char>>)> {
    v.map_values(|p: (String, Vec<String>)| (p.0@, views(p.1@)))
}

fn strings_of(items: &[&str]) -> (r: Vec<String>)
    ensures
        views(r@) == items@.map_values(|s: &str| s@),
{
    let mut v: Vec<String> = Vec::new();
    let mut i: usize = 0;
    while i < items.len()
        invariant
            i <= items@.len(),
            views(v@) == items@.take(i as int).map_values(|s: &str| s@),
        decreases items@.len() - i,
    {
        let ghost before = views(v@);
        v.push(owned(items[i]));
        assert(views(v@) =~= before.push(items@[i as int]@));
        assert(items@.take(i + 1).map_values(|s: &str| s@) =~= items@.take(i as int).map_values(|s: &str| s@).push(
            items@[i as int]@,
        ));
        i = i + 1;
    }
    assert(items@.take(items@.len() as int) =~= items@);
    v
}

fn push_plan(v: &mut Vec<(String, Vec<String>)>, path: &str, entries: Vec<String>)
    ensures
        plan_views(final(v)@) == plan_views(old(v)@).push((path@, views(entries@))),
{
    let ghost before = plan_views(v@);
    let ghost pv = (path@, views(entries@));
    v.push((owned(path), entries));
    assert(plan_views(v@) =~= before.push(pv));
}

/// The barrels to extend, with the lines each must contain.
pub fn barrel_plan(has_users_primer: bool) -> (r: Vec<(String, Vec<String>)>)
    ensures
        plan_views(r@) == barrel_plan_spec(has_users_primer),
{
    let mut v: Vec<(String, Vec<String>)> = Vec::new();
    let structs = if has_users_primer {
        let e = strings_of(&["pub mod auth;", "pub mod enums;"]);
        assert(views(e@) =~= structs_barrel_entries(has_users_primer));
        e
    } else {
        let e = strings_of(
            &[
                "pub mod auth;",
                "pub mod enums;",
                "pub mod users;",
                "pub use enums::UserRole;",
                "pub use users::UserPublic;",
                "#[cfg(not(target_arch = \"wasm32\"))]",
                "pub use users::{NewUser, User};",
            ],
        );
        assert(views(e@) =~= structs_barrel_entries(has_users_primer));
        e
    };
    push_plan(&mut v, "src/structs/generated/mod.rs", structs);
    let ghost a = plan_views(v@);
    if !has_users_primer {
        let e = strings_of(&["pub mod users;"]);
        assert(views(e@) =~= seq!["pub mod users;"@]);
        push_plan(&mut v, "src/models/generated/mod.rs", e);
    }
    let ghost b = plan_views(v@);
    let e = strings_of(&["pub mod auth;"]);
    assert(views(e@) =~= seq!["pub mod auth;"@]);
    push_plan(&mut v, "src/routines/generated/mod.rs", e);
    let e = strings_of(&["pub mod auth;"]);
    assert(views(e@) =~= seq!["pub mod auth;"@]);
    push_plan(&mut v, "src/flows/generated/mod.rs", e);
    let e = strings_of(&["pub mod auth;"]);
    assert(views(e@) =~= seq!["pub mod auth;"@]);
    push_plan(&mut v, "src/transport/http/generated/mod.rs", e);
    let e = strings_of(
        &[
            "pub mod login;",
            "pub mod logout;",
            "pub mod profile;",
            "pub mod register;",
            "pub use login::LoginPage;",
            "pub use logout::LogoutPage;",
            "pub use profile::ProfilePage;",
            "pub use register::RegisterPage;",
        ],
    );
    assert(views(e@) =~= pages_barrel_entries());
    push_plan(&mut v, "src/transport/leptos/pages/generated/mod.rs", e);
    assert(plan_views(v@) =~= barrel_plan_spec(has_users_primer));
    v
}

/// Some line of `lines`, trimmed, equals `entry` trimmed.
pub open spec fn has_line(lines: Seq<Seq<char>>, entry: Seq<char>) -> bool {
    exists|i: int| 0 <= i < lines.len() && trim_seq(#[trigger] lines[i]) == trim_seq(entry)
}

/// The entries not yet present in the existing barrel, in order.
pub open spec fn needed_entries(existing: Option<Seq<char>>, entries: Seq<Seq<char>>) -> Seq<Seq<char>>
    decreases entries.len(),
{
    if entries.len() == 0 {
        seq![]
    } else {
        let rest = needed_entries(existing, entries.drop_last());
        match existing {
            Some(prev) => if has_line(str_lines(prev), entries.last()) {
                rest
            } else {
                rest.push(entries.last())
            },
            None => rest.push(entries.last()),
        }
    }
}

pub open spec fn line_piece() -> spec_fn(Seq<char>) -> Seq<char> {
    |l: Seq<char>| l + "\n"@
}

/// The new barrel after adding the missing entries, one per line; none when
/// an existing barrel already has them all. A new barrel starts with the
/// marker; an existing one gets a newline first when it lacks a final one.
pub open spec fn merge_barrel_spec(existing: Option<Seq<char>>, marker: Seq<char>, entries: Seq<Seq<char>>) -> Option<Seq<char>> {
    let nd = needed_entries(existing, entries);
    match existing {
        Some(prev) => if nd.len() == 0 {
            None
        } else {
            Some(prev + (if seq_ends_with(prev, "\n"@) { Seq::<char>::empty() } else { "\n"@ }) + concat_map(
                nd,
                line_piece(),
            ))
        },
        None => Some(marker + concat_map(nd, line_piece())),
    }
}

pub open spec fn opt_str(o: Option<String>) -> Option<Seq<char>> {
    match o {
        Some(s) => Some(s@),
        None => None,
    }
}

fn has_trimmed_line(trimmed: &Vec<String>, entry: &str, Ghost(lines): Ghost<Seq<Seq<char>>>) -> (r: bool)
    requires
        trimmed@.len() == lines.len(),
        forall|i: int| 0 <= i < lines.len() ==> #[trigger] trimmed@[i]@ == trim_seq(lines[i]),
    ensures
        r == has_line(lines, entry@),
{
    let t = trim(entry);
    let mut i: usize = 0;
    while i < trimmed.len()
        invariant
            i <= trimmed@.len(),
            trimmed@.len() == lines.len(),
            t@ == trim_seq(entry@),
            forall|k: int| 0 <= k < lines.len() ==> #[trigger] trimmed@[k]@ == trim_seq(lines[k]),
            forall|k: int| 0 <= k < i ==> trim_seq(#[trigger] lines[k]) != trim_seq(entry@),
        decreases trimmed@.len() - i,
    {
        if str_eq(trimmed[i].as_str(), t.as_str()) {
            assert(trimmed@[i as int]@ == trim_seq(lines[i as int]));
            return true;
        }
        i = i + 1;
    }
    false
}

fn append_lines(out: &mut String, lines: &Vec<String>)
    ensures
        final(out)@ == old(out)@ + concat_map(views(lines@), line_piece()),
{
    let ghost start = out@;
    let ghost vs = views(lines@);
    let mut i: usize = 0;
    assert(vs.take(0) =~= Seq::<Seq<char>>::empty());
    while i < lines.len()
        invariant
            i <= lines@.len(),
            vs == views(lines@),
            out@ == start + concat_map(vs.take(i as int), line_piece()),
        decreases lines@.len() - i,
    {
        out.append(lines[i].as_str());
        out.append("\n");
        proof {
            lemma_concat_map_step(vs, i as int, line_piece());
            assert(vs[i as int] == lines@[i as int]@);
        }
        i = i + 1;
    }
    proof {
        lemma_concat_map_all(vs, line_piece());
    }
}

/// Merge required lines into a barrel: the new contents, or none when the
/// existing barrel needs no change.
pub fn merge_barrel(existing: &Option<String>, marker: &str, entries: &Vec<String>) -> (r: Option<String>)
    ensures
        opt_str(r) == merge_barrel_spec(opt_str(*existing), marker@, views(entries@)),
{
    let ghost ex = opt_str(*existing);
    let ghost ev = views(entries@);
    let mut trimmed: Vec<String> = Vec::new();
    let ghost mut lines: Seq<Seq<char>> = Seq::empty();
    match existing {
        Some(prev) => {
            let ls = split_lines(prev.as_str());
            proof {
                lines = views(ls@);
            }
            let mut k: usize = 0;
            while k < ls.len()
                invariant
                    k <= ls@.len(),
                    lines == views(ls@),
                    trimmed@.len() == k,
                    forall|j: int| 0 <= j < k ==> #[trigger] trimmed@[j]@ == trim_seq(lines[j]),
                decreases ls@.len() - k,
            {
                trimmed.push(trim(ls[k].as_str()));
                k = k + 1;
            }
        },
        None => {},
    }
    let mut needed: Vec<String> = Vec::new();
    let mut i: usize = 0;
    assert(ev.take(0) =~= Seq::<Seq<char>>::empty());
    while i < entries.len()
        invariant
            i <= entries@.len(),
            ev == views(entries@),
            ex == opt_str(*existing),
            existing is Some ==> lines == str_lines(existing->0@),
            existing is Some ==> trimmed@.len() == lines.len(),
            existing is Some ==> forall|j: int| 0 <= j < lines.len() ==> #[trigger] trimmed@[j]@ == trim_seq(lines[j]),
            views(needed@) == needed_entries(ex, ev.take(i as int)),
        decreases entries@.len() - i,
    {
        assert(ev.take(i + 1).drop_last() =~= ev.take(i as int));
        assert(ev.take(i + 1).last() == entries@[i as int]@);
        let already = match existing {
            Some(_) => has_trimmed_line(&trimmed, entries[i].as_str(), Ghost(lines)),
            None => false,
        };
        if !already {
            let ghost before = views(needed@);
            needed.push(owned(entries[i].as_str()));
            assert(views(needed@) =~= before.push(entries@[i as int]@));
        }
        i = i + 1;
    }
    assert(ev.take(entries@.len() as int) =~= ev);
    match existing {
        Some(prev) => {
            if needed.len() == 0 {
                return None;
            }
            let mut buf = owned(prev.as_str());
            if !str_ends_with(prev.as_str(), "\n") {
                buf.append("\n");
            }
            proof {
                reveal_strlit("");
            }
            append_lines(&mut buf, &needed);
            Some(buf)
        },
        None => {
            let mut buf = owned(marker);
            append_lines(&mut buf, &needed);
            Some(buf)
        },
    }
}


proof fn lemma_lines_split(a: Seq<char>, b: Seq<char>, cur: Seq<char>)
    requires
        a.len() > 0,
        a.last() == '\n',
    ensures
        lines_from(a + b, cur) == lines_from(a, cur) + lines_from(b, seq![]),
    decreases a.len(),
{
    let ab = a + b;
    assert(ab[0] == a[0]);
    assert(ab.drop_first() =~= a.drop_first() + b);
    if a[0] == '\n' {
        if a.len() == 1 {
            assert(a.drop_first() =~= Seq::<char>::empty());
            assert(a.drop_first() + b =~= b);
            assert(lines_from(a.drop_first(), seq![]) == Seq::<Seq<char>>::empty());
        } else {
            lemma_lines_split(a.drop_first(), b, seq![]);
        }
    } else {
        lemma_lines_split(a.drop_first(), b, cur.push(a[0]));
    }
}

proof fn lemma_line_of(e: Seq<char>, cur: Seq<char>)
    requires
        forall|k: int| 0 <= k < e.len() ==> e[k] != '\n',
    ensures
        lines_from(e + "\n"@, cur) == seq![strip_cr(cur + e)],
    decreases e.len(),
{
    reveal_strlit("\n");
    let s = e + "\n"@;
    if e.len() == 0 {
        assert(s =~= seq!['\n']);
        assert(s.drop_first() =~= Seq::<char>::empty());
        assert(lines_from(Seq::<char>::empty(), seq![]) =~= Seq::<Seq<char>>::empty());
        assert(cur + e =~= cur);
        assert(lines_from(s, cur) == seq![strip_cr(cur)] + lines_from(s.drop_first(), seq![]));
        assert(lines_from(s, cur) =~= seq![strip_cr(cur + e)]);
    } else {
        assert(s[0] == e[0]);
        assert(e[0] != '\n');
        assert(s.drop_first() =~= e.drop_first() + "\n"@);
        lemma_line_of(e.drop_first(), cur.push(e[0]));
        assert(cur.push(e[0]) + e.drop_first() =~= cur + e);
    }
}

/// No `\n` anywhere and no `\r` at the end.
pub open spec fn plain_line(e: Seq<char>) -> bool {
    (forall|k: int| 0 <= k < e.len() ==> e[k] != '\n') && !(e.len() > 0 && e.last() == '\r')
}

proof fn lemma_lines_of_pieces(nd: Seq<Seq<char>>)
    requires
        forall|k: int| 0 <= k < nd.len() ==> plain_line(#[trigger] nd[k]),
    ensures
        str_lines(concat_map(nd, line_piece())) == nd,
    decreases nd.len(),
{
    if nd.len() > 0 {
        let d = nd.drop_last();
        lemma_lines_of_pieces(d);
        let x = nd.last();
        assert(plain_line(nd[nd.len() - 1]));
        lemma_line_of(x, seq![]);
        assert(seq![] + x =~= x);
        let c = concat_map(d, line_piece());
        assert(concat_map(nd, line_piece()) == c + (x + "\n"@));
        if c.len() == 0 {
            assert(c + (x + "\n"@) =~= x + "\n"@);
            assert(str_lines(c) == d);
            assert(d.len() == 0);
        } else {
            lemma_pieces_end_newline(d);
            lemma_lines_split(c, x + "\n"@, seq![]);
        }
        assert(str_lines(concat_map(nd, line_piece())) =~= nd);
    }
}

proof fn lemma_pieces_end_newline(nd: Seq<Seq<char>>)
    requires
        concat_map(nd, line_piece()).len() > 0,
    ensures
        concat_map(nd, line_piece()).last() == '\n',
    decreases nd.len(),
{
    reveal_strlit("\n");
    if nd.len() > 0 {
        let x = nd.last();
        assert(concat_map(nd, line_piece()) == concat_map(nd.drop_last(), line_piece()) + (x + "\n"@));
        assert((x + "\n"@).last() == '\n');
    }
}

proof fn lemma_trim_start_push(s: Seq<char>, w: char)
    ensures
        trim_start_seq(s.push(w)) == (if trim_start_seq(s).len() == 0 {
            if is_ws(w) { Seq::<char>::empty() } else { seq![w] }
        } else {
            trim_start_seq(s).push(w)
        }),
    decreases s.len(),
{
    if s.len() == 0 {
        assert(s.push(w) =~= seq![w]);
        assert(seq![w].drop_first() =~= Seq::<char>::empty());
        assert(trim_start_seq(Seq::<char>::empty()) =~= Seq::<char>::empty());
        assert(trim_start_seq(s) =~= Seq::<char>::empty());
        if is_ws(w) {
            assert(trim_start_seq(seq![w]) == trim_start_seq(seq![w].drop_first()));
        } else {
            assert(trim_start_seq(seq![w]) == seq![w]);
        }
    } else if is_ws(s[0]) {
        assert(s.push(w)[0] == s[0]);
        assert(s.push(w).drop_first() =~= s.drop_first().push(w));
        lemma_trim_start_push(s.drop_first(), w);
        assert(trim_start_seq(s) == trim_start_seq(s.drop_first()));
        assert(trim_start_seq(s.push(w)) == trim_start_seq(s.push(w).drop_first()));
    } else {
        assert(s.push(w)[0] == s[0]);
        assert(trim_start_seq(s) == s);
        assert(trim_start_seq(s.push(w)) == s.push(w));
    }
}

/// Trimming ignores a final carriage return.
proof fn lemma_trim_strip_cr(l: Seq<char>)
    ensures
        trim_seq(strip_cr(l)) == trim_seq(l),
{
    if l.len() > 0 && l.last() == '\r' {
        let d = l.drop_last();
        assert(d.push('\r') =~= l);
        lemma_trim_start_push(d, '\r');
        let ts = trim_start_seq(d);
        if ts.len() == 0 {
            assert(trim_start_seq(l) =~= Seq::<char>::empty());
        } else {
            assert(trim_start_seq(l) == ts.push('\r'));
            assert(ts.push('\r').drop_last() =~= ts);
        }
    }
}

proof fn lemma_last_line_cr(a: Seq<char>, cur: Seq<char>)
    ensures
        lines_from(a + "\n"@, cur).len() >= lines_from(a, cur).len(),
        forall|i: int| 0 <= i < lines_from(a, cur).len() ==> trim_seq(#[trigger] lines_from(a, cur)[i]) == trim_seq(
            lines_from(a + "\n"@, cur)[i],
        ),
    decreases a.len(),
{
    reveal_strlit("\n");
    let s = a + "\n"@;
    if a.len() == 0 {
        assert(s =~= seq!['\n']);
        assert(s.drop_first() =~= Seq::<char>::empty());
        if cur.len() > 0 {
            lemma_trim_strip_cr(cur);
        }
    } else {
        assert(s[0] == a[0]);
        assert(s.drop_first() =~= a.drop_first() + "\n"@);
        if a[0] == '\n' {
            lemma_last_line_cr(a.drop_first(), seq![]);
            let x = lines_from(a, cur);
            let y = lines_from(s, cur);
            assert forall|i: int| 0 <= i < x.len() implies trim_seq(#[trigger] x[i]) == trim_seq(y[i]) by {
                if i > 0 {
                    assert(x[i] == lines_from(a.drop_first(), seq![])[i - 1]);
                    assert(y[i] == lines_from(a.drop_first() + "\n"@, seq![])[i - 1]);
                }
            }
        } else {
            lemma_last_line_cr(a.drop_first(), cur.push(a[0]));
        }
    }
}

/// Each entry is either already a line of the existing barrel or among the
/// entries the merge adds.
proof fn lemma_needed_covers(existing: Option<Seq<char>>, entries: Seq<Seq<char>>, k: int)
    requires
        0 <= k < entries.len(),
    ensures
        (existing matches Some(prev) && has_line(str_lines(prev), entries[k])) || needed_entries(existing, entries).contains(
            entries[k],
        ),
    decreases entries.len(),
{
    let rest = needed_entries(existing, entries.drop_last());
    if k < entries.len() - 1 {
        lemma_needed_covers(existing, entries.drop_last(), k);
        assert(entries.drop_last()[k] == entries[k]);
        if rest.contains(entries[k]) {
            let w = choose|w: int| 0 <= w < rest.len() && rest[w] == entries[k];
            let nd = needed_entries(existing, entries);
            assert(nd == rest || nd == rest.push(entries.last()));
            assert(nd[w] == entries[k]);
        }
    } else {
        let nd = needed_entries(existing, entries);
        if nd == rest.push(entries.last()) {
            assert(nd[rest.len() as int] == entries[k]);
        }
    }
}

proof fn lemma_none_needed(s: Seq<char>, entries: Seq<Seq<char>>)
    requires
        forall|k: int| 0 <= k < entries.len() ==> has_line(str_lines(s), #[trigger] entries[k]),
    ensures
        needed_entries(Some(s), entries).len() == 0,
    decreases entries.len(),
{
    if entries.len() > 0 {
        lemma_none_needed(s, entries.drop_last());
        assert(entries.drop_last().len() < entries.len());
        assert forall|k: int| 0 <= k < entries.drop_last().len() implies has_line(
            str_lines(s),
            #[trigger] entries.drop_last()[k],
        ) by {
            assert(entries.drop_last()[k] == entries[k]);
        }
        assert(has_line(str_lines(s), entries[entries.len() - 1]));
    }
}

/// Extending a barrel is idempotent: after `merge_barrel` has added the
/// missing entries, merging the same entries again changes nothing. The
/// entries are single lines (no `\n`, no final `\r`), and a marker that
/// starts a new barrel is empty or ends its own line.
pub proof fn lemma_merge_barrel_idempotent(existing: Option<Seq<char>>, marker: Seq<char>, entries: Seq<Seq<char>>)
    requires
        forall|k: int| 0 <= k < entries.len() ==> plain_line(#[trigger] entries[k]),
        marker.len() == 0 || marker.last() == '\n',
    ensures
        merge_barrel_spec(existing, marker, entries) matches Some(s) ==> merge_barrel_spec(Some(s), marker, entries)
            is None,
{
    reveal_strlit("\n");
    if let Some(s) = merge_barrel_spec(existing, marker, entries) {
        let nd = needed_entries(existing, entries);
        assert forall|k: int| 0 <= k < nd.len() implies plain_line(#[trigger] nd[k]) by {
            lemma_needed_sub(existing, entries, k);
        }
        lemma_lines_of_pieces(nd);
        let tail = concat_map(nd, line_piece());
        let head: Seq<char> = match existing {
            Some(prev) => prev + (if seq_ends_with(prev, "\n"@) { Seq::<char>::empty() } else { "\n"@ }),
            None => marker,
        };
        assert(s == head + tail);
        // the lines of `s`: those of `head`, then the needed entries
        if head.len() == 0 {
            assert(s =~= tail);
        } else {
            assert(head.last() == '\n') by {
                if let Some(prev) = existing {
                    if seq_ends_with(prev, "\n"@) {
                        assert(prev.subrange(prev.len() - 1, prev.len() as int)[0] == prev.last());
                    }
                }
            }
            lemma_lines_split(head, tail, seq![]);
        }
        assert forall|k: int| 0 <= k < entries.len() implies has_line(str_lines(s), #[trigger] entries[k]) by {
            lemma_needed_covers(existing, entries, k);
            let e = entries[k];
            if nd.contains(e) {
                let w = choose|w: int| 0 <= w < nd.len() && nd[w] == e;
                let ls = str_lines(s);
                if head.len() == 0 {
                    assert(ls[w] == e);
                } else {
                    let hl = str_lines(head);
                    assert(ls[hl.len() + w] == e);
                }
            } else {
                let prev = existing->0;
                let pl = str_lines(prev);
                let i = choose|i: int| 0 <= i < pl.len() && trim_seq(#[trigger] pl[i]) == trim_seq(e);
                if seq_ends_with(prev, "\n"@) {
                    assert(head =~= prev);
                } else {
                    lemma_last_line_cr(prev, seq![]);
                }
                let hl = str_lines(head);
                assert(trim_seq(hl[i]) == trim_seq(e));
                assert(str_lines(s)[i] == hl[i]);
            }
        }
        lemma_none_needed(s, entries);
    }
}

proof fn lemma_needed_sub(existing: Option<Seq<char>>, entries: Seq<Seq<char>>, k: int)
    requires
        0 <= k < needed_entries(existing, entries).len(),
    ensures
        entries.contains(needed_entries(existing, entries)[k]),
    decreases entries.len(),
{
    let rest = needed_entries(existing, entries.drop_last());
    let nd = needed_entries(existing, entries);
    if k < rest.len() {
        assert(nd[k] == rest[k]);
        lemma_needed_sub(existing, entries.drop_last(), k);
        let w = choose|w: int| 0 <= w < entries.drop_last().len() && entries.drop_last()[w] == rest[k];
        assert(entries[w] == rest[k]);
    } else {
        assert(nd[k] == entries.last());
        assert(entries[entries.len() - 1] == entries.last());
    }
}

/// What path `p` holds in the file system `fs` (each path with its contents).
pub open spec fn held(fs: Map<Seq<char>, Seq<char>>, p: Seq<char>) -> Option<Seq<char>> {
    if fs.dom().contains(p) {
        Some(fs[p])
    } else {
        None
    }
}

/// A run's report (paths written, paths skipped) and the file system it leaves.
pub type RunResult = (Seq<Seq<char>>, Seq<Seq<char>>, Map<Seq<char>, Seq<char>>);

pub open spec fn file_paths(files: Seq<(Seq<char>, Seq<char>)>) -> Seq<Seq<char>> {
    files.map_values(|f: (Seq<char>, Seq<char>)| f.0)
}

pub open spec fn barrel_paths(barrels: Seq<(Seq<char>, Seq<Seq<char>>)>) -> Seq<Seq<char>> {
    barrels.map_values(|b: (Seq<char>, Seq<Seq<char>>)| b.0)
}

/// No path occurs twice.
pub open spec fn distinct_paths(s: Seq<Seq<char>>) -> bool {
    forall|i: int, j: int| 0 <= i < j < s.len() ==> s[i] != s[j]
}

/// Each file written, in order, unless its target already holds its body
/// (`needs_write`).
pub open spec fn write_files_run(fs: Map<Seq<char>, Seq<char>>, files: Seq<(Seq<char>, Seq<char>)>) -> RunResult
    decreases files.len(),
{
    if files.len() == 0 {
        (seq![], seq![], fs)
    } else {
        let r = write_files_run(fs, files.drop_last());
        let f = files.last();
        if needs_write_spec(held(r.2, f.0), f.1) {
            (r.0.push(f.0), r.1, r.2.insert(f.0, f.1))
        } else {
            (r.0, r.1.push(f.0), r.2)
        }
    }
}

/// Each barrel extended, in order, with the entries it lacks (`merge_barrel`).
pub open spec fn merge_barrels_run(
    fs: Map<Seq<char>, Seq<char>>,
    barrels: Seq<(Seq<char>, Seq<Seq<char>>)>,
    marker: Seq<char>,
) -> RunResult
    decreases barrels.len(),
{
    if barrels.len() == 0 {
        (seq![], seq![], fs)
    } else {
        let r = merge_barrels_run(fs, barrels.drop_last(), marker);
        let b = barrels.last();
        match merge_barrel_spec(held(r.2, b.0), marker, b.1) {
            Some(body) => (r.0.push(b.0), r.1, r.2.insert(b.0, body)),
            None => (r.0, r.1.push(b.0), r.2),
        }
    }
}

/// One run of the auth pass over `fs`: its files (`auth_files`), then its
/// barrels (`barrel_plan`).
pub open spec fn auth_run(
    fs: Map<Seq<char>, Seq<char>>,
    files: Seq<(Seq<char>, Seq<char>)>,
    barrels: Seq<(Seq<char>, Seq<Seq<char>>)>,
    marker: Seq<char>,
) -> RunResult {
    let a = write_files_run(fs, files);
    let b = merge_barrels_run(a.2, barrels, marker);
    (a.0 + b.0, a.1 + b.1, b.2)
}

/// What a barrel holds after one merge.
pub open spec fn merged_or(h: Option<Seq<char>>, marker: Seq<char>, entries: Seq<Seq<char>>) -> Option<Seq<char>> {
    match merge_barrel_spec(h, marker, entries) {
        Some(s) => Some(s),
        None => h,
    }
}

/// Running the auth pass again over what a run left, with no file changed
/// in between, writes nothing, skips every file and every barrel, and
/// changes nothing; so each barrel line is added once over any number of
/// runs. A barrel that existed before the first run keeps its old contents
/// as a prefix. The paths are distinct, the barrel entries single lines, and
/// the marker empty or ending its own line.
pub proof fn lemma_auth_rerun(
    fs: Map<Seq<char>, Seq<char>>,
    files: Seq<(Seq<char>, Seq<char>)>,
    barrels: Seq<(Seq<char>, Seq<Seq<char>>)>,
    marker: Seq<char>,
)
    requires
        distinct_paths(file_paths(files) + barrel_paths(barrels)),
        forall|j: int, k: int|
            0 <= j < barrels.len() && 0 <= k < barrels[j].1.len() ==> plain_line(#[trigger] barrels[j].1[k]),
        marker.len() == 0 || marker.last() == '\n',
    ensures
        auth_run(auth_run(fs, files, barrels, marker).2, files, barrels, marker).0 == Seq::<Seq<char>>::empty(),
        auth_run(auth_run(fs, files, barrels, marker).2, files, barrels, marker).1 == file_paths(files)
            + barrel_paths(barrels),
        auth_run(auth_run(fs, files, barrels, marker).2, files, barrels, marker).2 == auth_run(
            fs,
            files,
            barrels,
            marker,
        ).2,
        forall|j: int|
            0 <= j < barrels.len() && #[trigger] fs.dom().contains(barrels[j].0) ==> fs[barrels[j].0].is_prefix_of(
                auth_run(fs, files, barrels, marker).2[barrels[j].0],
            ),
{
    let fp = file_paths(files);
    let bp = barrel_paths(barrels);
    let all = fp + bp;
    assert(distinct_paths(fp)) by {
        assert forall|i: int, j: int| 0 <= i < j < fp.len() implies fp[i] != fp[j] by {
            assert(all[i] == fp[i] && all[j] == fp[j]);
        }
    }
    assert(distinct_paths(bp)) by {
        assert forall|i: int, j: int| 0 <= i < j < bp.len() implies bp[i] != bp[j] by {
            assert(all[fp.len() + i] == bp[i] && all[fp.len() + j] == bp[j]);
        }
    }
    let a1 = write_files_run(fs, files);
    lemma_files_run_writes(fs, files);
    let b1 = merge_barrels_run(a1.2, barrels, marker);
    lemma_barrels_run_merges(a1.2, barrels, marker);
    let g = b1.2;
    // every file still holds its body after the barrels
    assert forall|i: int| 0 <= i < files.len() implies #[trigger] held(g, files[i].0) == Some(files[i].1) by {
        assert forall|j: int| 0 <= j < barrels.len() implies #[trigger] barrels[j].0 != files[i].0 by {
            assert(all[i] == fp[i] && all[fp.len() + j] == bp[j]);
            assert(fp[i] == files[i].0 && bp[j] == barrels[j].0);
        }
    }
    lemma_files_run_idle(g, files);
    // every barrel already has all its entries
    assert forall|j: int| 0 <= j < barrels.len() implies #[trigger] merge_barrel_spec(
        held(g, barrels[j].0),
        marker,
        barrels[j].1,
    ) is None by {
        let h = held(a1.2, barrels[j].0);
        assert(held(g, barrels[j].0) == merged_or(h, marker, barrels[j].1));
        assert forall|k: int| 0 <= k < barrels[j].1.len() implies plain_line(#[trigger] barrels[j].1[k]) by {
            assert(plain_line(barrels[j].1[k]));
        }
        lemma_merge_barrel_idempotent(h, marker, barrels[j].1);
        if merge_barrel_spec(h, marker, barrels[j].1) is None {
            match h {
                Some(x) => {},
                None => {
                    assert(merge_barrel_spec(h, marker, barrels[j].1) is Some);
                },
            }
        }
    }
    lemma_barrels_run_idle(g, barrels, marker);
    let r2 = auth_run(g, files, barrels, marker);
    assert(r2.0 =~= Seq::<Seq<char>>::empty());
    assert(r2.1 =~= fp + bp);
    // old barrels are prefixes of the new ones
    assert forall|j: int| 0 <= j < barrels.len() && #[trigger] fs.dom().contains(barrels[j].0) implies fs[
        barrels[j].0
    ].is_prefix_of(g[barrels[j].0]) by {
        let q = barrels[j].0;
        assert forall|i: int| 0 <= i < files.len() implies #[trigger] files[i].0 != q by {
            assert(all[i] == fp[i] && all[fp.len() + j] == bp[j]);
            assert(fp[i] == files[i].0 && bp[j] == q);
        }
        assert(held(a1.2, q) == Some(fs[q]));
        let prev = fs[q];
        assert(held(g, q) == merged_or(Some(prev), marker, barrels[j].1));
        match merge_barrel_spec(Some(prev), marker, barrels[j].1) {
            Some(s) => {
                let tail = (if seq_ends_with(prev, "\n"@) { Seq::<char>::empty() } else { "\n"@ }) + concat_map(
                    needed_entries(Some(prev), barrels[j].1),
                    line_piece(),
                );
                assert(s =~= prev + tail);
                assert((prev + tail).subrange(0, prev.len() as int) =~= prev);
            },
            None => {
                assert(prev.subrange(0, prev.len() as int) =~= prev);
            },
        }
    }
}

/// A run over distinct files leaves each one holding its body and every
/// other path as it was.
proof fn lemma_files_run_writes(fs: Map<Seq<char>, Seq<char>>, files: Seq<(Seq<char>, Seq<char>)>)
    requires
        distinct_paths(file_paths(files)),
    ensures
        forall|i: int| 0 <= i < files.len() ==> #[trigger] held(write_files_run(fs, files).2, files[i].0) == Some(files[i].1),
        forall|p: Seq<char>|
            (forall|i: int| 0 <= i < files.len() ==> #[trigger] files[i].0 != p) ==> #[trigger] held(
                write_files_run(fs, files).2,
                p,
            ) == held(fs, p),
    decreases files.len(),
{
    if files.len() > 0 {
        let d = files.drop_last();
        assert(distinct_paths(file_paths(d))) by {
            assert forall|i: int, j: int| 0 <= i < j < file_paths(d).len() implies file_paths(d)[i] != file_paths(d)[j] by {
                assert(file_paths(files)[i] == file_paths(d)[i] && file_paths(files)[j] == file_paths(d)[j]);
            }
        }
        lemma_files_run_writes(fs, d);
        let r = write_files_run(fs, d);
        let f = files.last();
        let n = files.len() - 1;
        let w = write_files_run(fs, files);
        if needs_write_spec(held(r.2, f.0), f.1) {
            assert(w.2 == r.2.insert(f.0, f.1));
        } else {
            assert(w.2 == r.2);
            assert(held(r.2, f.0) == Some(f.1));
        }
        assert forall|i: int| 0 <= i < files.len() implies #[trigger] held(write_files_run(fs, files).2, files[i].0)
            == Some(files[i].1) by {
            if i < n {
                assert(files[i] == d[i]);
                assert(file_paths(files)[i] != file_paths(files)[n]);
                assert(held(r.2, d[i].0) == Some(d[i].1));
            }
        }
        assert forall|p: Seq<char>| (forall|i: int| 0 <= i < files.len() ==> #[trigger] files[i].0 != p) implies #[trigger] held(
            write_files_run(fs, files).2,
            p,
        ) == held(fs, p) by {
            assert forall|i: int| 0 <= i < d.len() implies #[trigger] d[i].0 != p by {
                assert(files[i] == d[i]);
            }
            assert(files[n].0 != p);
            assert(held(r.2, p) == held(fs, p));
        }
    }
}

/// Where every file already holds its body, the run writes nothing, skips
/// every file, and leaves the file system as it is.
proof fn lemma_files_run_idle(g: Map<Seq<char>, Seq<char>>, files: Seq<(Seq<char>, Seq<char>)>)
    requires
        forall|i: int| 0 <= i < files.len() ==> #[trigger] held(g, files[i].0) == Some(files[i].1),
    ensures
        write_files_run(g, files).0 == Seq::<Seq<char>>::empty(),
        write_files_run(g, files).1 == file_paths(files),
        write_files_run(g, files).2 == g,
    decreases files.len(),
{
    if files.len() > 0 {
        let d = files.drop_last();
        assert forall|i: int| 0 <= i < d.len() implies #[trigger] held(g, d[i].0) == Some(d[i].1) by {
            assert(files[i] == d[i]);
        }
        lemma_files_run_idle(g, d);
        assert(held(g, files[files.len() - 1].0) == Some(files[files.len() - 1].1));
        assert(file_paths(files) =~= file_paths(d).push(files.last().0));
    }
}

/// A run over distinct barrels leaves each one as one merge makes it and
/// every other path as it was.
proof fn lemma_barrels_run_merges(
    fs: Map<Seq<char>, Seq<char>>,
    barrels: Seq<(Seq<char>, Seq<Seq<char>>)>,
    marker: Seq<char>,
)
    requires
        distinct_paths(barrel_paths(barrels)),
    ensures
        forall|j: int|
            0 <= j < barrels.len() ==> #[trigger] held(merge_barrels_run(fs, barrels, marker).2, barrels[j].0)
                == merged_or(held(fs, barrels[j].0), marker, barrels[j].1),
        forall|p: Seq<char>|
            (forall|j: int| 0 <= j < barrels.len() ==> #[trigger] barrels[j].0 != p) ==> #[trigger] held(
                merge_barrels_run(fs, barrels, marker).2,
                p,
            ) == held(fs, p),
    decreases barrels.len(),
{
    if barrels.len() > 0 {
        let d = barrels.drop_last();
        assert(distinct_paths(barrel_paths(d))) by {
            assert forall|i: int, j: int| 0 <= i < j < barrel_paths(d).len() implies barrel_paths(d)[i] != barrel_paths(
                d,
            )[j] by {
                assert(barrel_paths(barrels)[i] == barrel_paths(d)[i] && barrel_paths(barrels)[j] == barrel_paths(d)[j]);
            }
        }
        lemma_barrels_run_merges(fs, d, marker);
        let n = barrels.len() - 1;
        let b = barrels.last();
        assert forall|j: int| 0 <= j < d.len() implies #[trigger] d[j].0 != b.0 by {
            assert(barrels[j] == d[j]);
            assert(barrel_paths(barrels)[j] != barrel_paths(barrels)[n]);
        }
        let r = merge_barrels_run(fs, d, marker);
        let w = merge_barrels_run(fs, barrels, marker);
        assert(held(r.2, b.0) == held(fs, b.0));
        match merge_barrel_spec(held(r.2, b.0), marker, b.1) {
            Some(body) => {
                assert(w.2 == r.2.insert(b.0, body));
            },
            None => {
                assert(w.2 == r.2);
            },
        }
        assert forall|j: int| 0 <= j < barrels.len() implies #[trigger] held(merge_barrels_run(fs, barrels, marker).2, barrels[j].0)
            == merged_or(held(fs, barrels[j].0), marker, barrels[j].1) by {
            if j < n {
                assert(barrels[j] == d[j]);
                assert(barrel_paths(barrels)[j] != barrel_paths(barrels)[n]);
                assert(held(r.2, d[j].0) == merged_or(held(fs, d[j].0), marker, d[j].1));
            }
        }
        assert forall|p: Seq<char>| (forall|j: int| 0 <= j < barrels.len() ==> #[trigger] barrels[j].0 != p) implies #[trigger] held(
            merge_barrels_run(fs, barrels, marker).2,
            p,
        ) == held(fs, p) by {
            assert forall|j: int| 0 <= j < d.len() implies #[trigger] d[j].0 != p by {
                assert(barrels[j] == d[j]);
            }
            assert(barrels[n].0 != p);
            assert(held(r.2, p) == held(fs, p));
        }
    }
}

/// Where every barrel already has its entries, the run writes nothing,
/// skips every barrel, and leaves the file system as it is.
proof fn lemma_barrels_run_idle(g: Map<Seq<char>, Seq<char>>, barrels: Seq<(Seq<char>, Seq<Seq<char>>)>, marker: Seq<char>)
    requires
        forall|j: int| 0 <= j < barrels.len() ==> #[trigger] merge_barrel_spec(held(g, barrels[j].0), marker, barrels[j].1) is None,
    ensures
        merge_barrels_run(g, barrels, marker).0 == Seq::<Seq<char>>::empty(),
        merge_barrels_run(g, barrels, marker).1 == barrel_paths(barrels),
        merge_barrels_run(g, barrels, marker).2 == g,
    decreases barrels.len(),
{
    if barrels.len() > 0 {
        let d = barrels.drop_last();
        assert forall|j: int| 0 <= j < d.len() implies #[trigger] merge_barrel_spec(held(g, d[j].0), marker, d[j].1) is None by {
            assert(barrels[j] == d[j]);
        }
        lemma_barrels_run_idle(g, d, marker);
        let n = barrels.len() - 1;
        assert(merge_barrel_spec(held(g, barrels[n].0), marker, barrels[n].1) is None);
        assert(barrel_paths(barrels) =~= barrel_paths(d).push(barrels.last().0));
    }
}

} // verus!
