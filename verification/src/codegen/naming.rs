//! Identifier case conversions shared by the generators.
use vstd::prelude::*;
use vstd::string::*;
use crate::text::{
    char_to_lower, char_to_upper, chars_of, c_is_ascii_alnum, c_lower_ascii, c_upper_ascii,
    is_ascii_alnum, lower_ascii, lower_of, owned, push_char, seq_ends_with, str_ends_with,
    upper_ascii, upper_of,
};

verus! {

// ---------------------------------------------------------------------------
// Specifications
// ---------------------------------------------------------------------------

/// `pascalize`: `_`, `-` and space start a new word, other non-alphanumeric
/// ASCII characters are dropped, the first letter of a word is upper-cased
/// and the rest lower-cased.
pub open spec fn pascalize_from(s: Seq<char>, cap: bool) -> Seq<char>
    decreases s.len(),
{
    if s.len() == 0 {
        seq![]
    } else {
        let c = s[0];
        if c == '_' || c == '-' || c == ' ' {
            pascalize_from(s.drop_first(), true)
        } else if !is_ascii_alnum(c) {
            pascalize_from(s.drop_first(), cap)
        } else if cap {
            seq![upper_ascii(c)] + pascalize_from(s.drop_first(), false)
        } else {
            seq![lower_ascii(c)] + pascalize_from(s.drop_first(), false)
        }
    }
}

pub open spec fn pascalize_spec(s: Seq<char>) -> Seq<char> {
    pascalize_from(s, true)
}

/// `_` and `-` start a new word whose first character is upper-cased; all
/// other characters are kept as they are (`lower_rest` false) or lower-cased.
pub open spec fn words_from(s: Seq<char>, up: bool, lower_rest: bool) -> Seq<char>
    decreases s.len(),
{
    if s.len() == 0 {
        seq![]
    } else {
        let c = s[0];
        if c == '_' || c == '-' {
            words_from(s.drop_first(), true, lower_rest)
        } else if up {
            upper_of(c) + words_from(s.drop_first(), false, lower_rest)
        } else if lower_rest {
            lower_of(c) + words_from(s.drop_first(), false, lower_rest)
        } else {
            seq![c] + words_from(s.drop_first(), false, lower_rest)
        }
    }
}

/// PascalCase that keeps the case of non-initial characters (`user_accounts` -> `UserAccounts`).
pub open spec fn pascal_case_spec(s: Seq<char>) -> Seq<char> {
    words_from(s, true, false)
}

/// PascalCase that lower-cases non-initial characters (`USER_ROLE` -> `UserRole`).
pub open spec fn type_alias_spec(s: Seq<char>) -> Seq<char> {
    words_from(s, true, true)
}

/// `-` becomes `_`, everything else is upper-cased.
pub open spec fn screaming_from(s: Seq<char>) -> Seq<char>
    decreases s.len(),
{
    if s.len() == 0 {
        seq![]
    } else if s[0] == '-' {
        seq!['_'] + screaming_from(s.drop_first())
    } else {
        upper_of(s[0]) + screaming_from(s.drop_first())
    }
}

pub open spec fn options_const_spec(s: Seq<char>) -> Seq<char> {
    let up = screaming_from(s);
    if seq_ends_with(up, "_VALUES"@) {
        up
    } else {
        up + "_VALUES"@
    }
}

/// Words separated by `_` (empty words dropped), joined by a space; the first
/// word starts upper-case, later ones start lower-case.
pub open spec fn humanize_from(s: Seq<char>, start: bool, seen: bool) -> Seq<char>
    decreases s.len(),
{
    if s.len() == 0 {
        seq![]
    } else {
        let c = s[0];
        if c == '_' {
            humanize_from(s.drop_first(), true, seen)
        } else if start && seen {
            seq![' '] + lower_of(c) + humanize_from(s.drop_first(), false, true)
        } else if start {
            upper_of(c) + humanize_from(s.drop_first(), false, true)
        } else {
            seq![c] + humanize_from(s.drop_first(), false, seen)
        }
    }
}

pub open spec fn humanize_spec(s: Seq<char>) -> Seq<char> {
    humanize_from(s, true, false)
}

/// Each `_` becomes a space; the first character and every character after
/// an `_` are upper-cased.
pub open spec fn label_from(s: Seq<char>, up: bool) -> Seq<char>
    decreases s.len(),
{
    if s.len() == 0 {
        seq![]
    } else {
        let c = s[0];
        if c == '_' {
            seq![' '] + label_from(s.drop_first(), true)
        } else if up {
            upper_of(c) + label_from(s.drop_first(), false)
        } else {
            seq![c] + label_from(s.drop_first(), false)
        }
    }
}

pub open spec fn pretty_label_spec(s: Seq<char>) -> Seq<char> {
    label_from(s, true)
}

/// English singular of a table name: `-sses/-shes/-ches/-xes/-zes` drop `es`,
/// `-ies` becomes `-y`, a trailing `s` is dropped.
pub open spec fn singularize_spec(t: Seq<char>) -> Seq<char> {
    if seq_ends_with(t, "sses"@) {
        t.subrange(0, t.len() - 2)
    } else if seq_ends_with(t, "shes"@) {
        t.subrange(0, t.len() - 2)
    } else if seq_ends_with(t, "ches"@) {
        t.subrange(0, t.len() - 2)
    } else if seq_ends_with(t, "xes"@) {
        t.subrange(0, t.len() - 2)
    } else if seq_ends_with(t, "zes"@) {
        t.subrange(0, t.len() - 2)
    } else if seq_ends_with(t, "ies"@) {
        t.subrange(0, t.len() - 3) + seq!['y']
    } else if seq_ends_with(t, "s"@) {
        t.subrange(0, t.len() - 1)
    } else {
        t
    }
}

// ---------------------------------------------------------------------------
// Implementations
// ---------------------------------------------------------------------------

/// PascalCase a snake/kebab/space-separated identifier without singularizing.
pub fn pascalize(input: &str) -> (r: String)
    ensures
        r@ == pascalize_spec(input@),
{
    let cs = chars_of(input);
    let mut out = String::new();
    let mut cap = true;
    let mut i: usize = 0;
    assert(cs@.subrange(0, cs.len() as int) =~= cs@);
    assert(out@ + pascalize_from(cs@, true) =~= pascalize_from(cs@, true));
    while i < cs.len()
        invariant
            i <= cs.len(),
            cs@ == input@,
            pascalize_from(cs@, true) == out@ + pascalize_from(cs@.subrange(i as int, cs.len() as int), cap),
        decreases cs.len() - i,
    {
        let c = cs[i];
        let ghost rest = cs@.subrange(i as int, cs.len() as int);
        let ghost old_out = out@;
        assert(rest.drop_first() =~= cs@.subrange(i + 1, cs.len() as int));
        if c == '_' || c == '-' || c == ' ' {
            cap = true;
        } else if !c_is_ascii_alnum(c) {
        } else if cap {
            push_char(&mut out, c_upper_ascii(c));
            cap = false;
        } else {
            push_char(&mut out, c_lower_ascii(c));
        }
        i = i + 1;
        assert(pascalize_from(cs@, true) =~= out@ + pascalize_from(cs@.subrange(i as int, cs.len() as int), cap));
    }
    out
}

fn words(input: &str, lower_rest: bool) -> (r: String)
    ensures
        r@ == words_from(input@, true, lower_rest),
{
    let cs = chars_of(input);
    let mut out = String::new();
    let mut up = true;
    let mut i: usize = 0;
    assert(cs@.subrange(0, cs.len() as int) =~= cs@);
    assert(out@ + words_from(cs@, true, lower_rest) =~= words_from(cs@, true, lower_rest));
    while i < cs.len()
        invariant
            i <= cs.len(),
            cs@ == input@,
            words_from(cs@, true, lower_rest) == out@ + words_from(
                cs@.subrange(i as int, cs.len() as int),
                up,
                lower_rest,
            ),
        decreases cs.len() - i,
    {
        let c = cs[i];
        let ghost rest = cs@.subrange(i as int, cs.len() as int);
        assert(rest.drop_first() =~= cs@.subrange(i + 1, cs.len() as int));
        if c == '_' || c == '-' {
            up = true;
        } else if up {
            let u = char_to_upper(c);
            out.append(u.as_str());
            up = false;
        } else if lower_rest {
            let l = char_to_lower(c);
            out.append(l.as_str());
        } else {
            push_char(&mut out, c);
        }
        i = i + 1;
        assert(words_from(cs@, true, lower_rest) =~= out@ + words_from(
            cs@.subrange(i as int, cs.len() as int),
            up,
            lower_rest,
        ));
    }
    out
}

/// PascalCase on `_`/`-` boundaries, keeping the case of the other characters.
pub fn pascal_case(input: &str) -> (r: String)
    ensures
        r@ == pascal_case_spec(input@),
{
    words(input, false)
}

/// TypeScript alias name of a Postgres enum (`user_role` -> `UserRole`).
pub fn enum_type_alias(enum_name: &str) -> (r: String)
    ensures
        r@ == type_alias_spec(enum_name@),
{
    words(enum_name, true)
}

/// Name of the TS constant holding an enum's values (`user_role` -> `USER_ROLE_VALUES`).
pub fn enum_options_const_name(enum_name: &str) -> (r: String)
    ensures
        r@ == options_const_spec(enum_name@),
{
    let cs = chars_of(enum_name);
    let mut out = String::new();
    let mut i: usize = 0;
    assert(cs@.subrange(0, cs.len() as int) =~= cs@);
    assert(out@ + screaming_from(cs@) =~= screaming_from(cs@));
    while i < cs.len()
        invariant
            i <= cs.len(),
            cs@ == enum_name@,
            screaming_from(cs@) == out@ + screaming_from(cs@.subrange(i as int, cs.len() as int)),
        decreases cs.len() - i,
    {
        let c = cs[i];
        let ghost rest = cs@.subrange(i as int, cs.len() as int);
        assert(rest.drop_first() =~= cs@.subrange(i + 1, cs.len() as int));
        if c == '-' {
            push_char(&mut out, '_');
        } else {
            let u = char_to_upper(c);
            out.append(u.as_str());
        }
        i = i + 1;
        assert(screaming_from(cs@) =~= out@ + screaming_from(cs@.subrange(i as int, cs.len() as int)));
    }
    if str_ends_with(out.as_str(), "_VALUES") {
        out
    } else {
        out.append("_VALUES");
        out
    }
}

/// Title-cases a snake_case name for a form label (`email_address` -> `Email address`).
pub fn humanize(snake: &str) -> (r: String)
    ensures
        r@ == humanize_spec(snake@),
{
    let cs = chars_of(snake);
    let mut out = String::new();
    let mut start = true;
    let mut seen = false;
    let mut i: usize = 0;
    assert(cs@.subrange(0, cs.len() as int) =~= cs@);
    assert(out@ + humanize_from(cs@, true, false) =~= humanize_from(cs@, true, false));
    while i < cs.len()
        invariant
            i <= cs.len(),
            cs@ == snake@,
            humanize_from(cs@, true, false) == out@ + humanize_from(
                cs@.subrange(i as int, cs.len() as int),
                start,
                seen,
            ),
        decreases cs.len() - i,
    {
        let c = cs[i];
        let ghost rest = cs@.subrange(i as int, cs.len() as int);
        assert(rest.drop_first() =~= cs@.subrange(i + 1, cs.len() as int));
        if c == '_' {
            start = true;
        } else if start && seen {
            push_char(&mut out, ' ');
            let l = char_to_lower(c);
            out.append(l.as_str());
            start = false;
        } else if start {
            let u = char_to_upper(c);
            out.append(u.as_str());
            start = false;
            seen = true;
        } else {
            push_char(&mut out, c);
        }
        i = i + 1;
        assert(humanize_from(cs@, true, false) =~= out@ + humanize_from(
            cs@.subrange(i as int, cs.len() as int),
            start,
            seen,
        ));
    }
    out
}

/// Label text for a generated Leptos form field (`first_name` -> `First Name`).
pub fn pretty_label(name: &str) -> (r: String)
    ensures
        r@ == pretty_label_spec(name@),
{
    let cs = chars_of(name);
    let mut out = String::new();
    let mut up = true;
    let mut i: usize = 0;
    assert(cs@.subrange(0, cs.len() as int) =~= cs@);
    assert(out@ + label_from(cs@, true) =~= label_from(cs@, true));
    while i < cs.len()
        invariant
            i <= cs.len(),
            cs@ == name@,
            label_from(cs@, true) == out@ + label_from(cs@.subrange(i as int, cs.len() as int), up),
        decreases cs.len() - i,
    {
        let c = cs[i];
        let ghost rest = cs@.subrange(i as int, cs.len() as int);
        assert(rest.drop_first() =~= cs@.subrange(i + 1, cs.len() as int));
        if c == '_' {
            push_char(&mut out, ' ');
            up = true;
        } else if up {
            let u = char_to_upper(c);
            out.append(u.as_str());
            up = false;
        } else {
            push_char(&mut out, c);
        }
        i = i + 1;
        assert(label_from(cs@, true) =~= out@ + label_from(cs@.subrange(i as int, cs.len() as int), up));
    }
    out
}

/// English singular of a table name.
pub fn singularize(table: &str) -> (r: String)
    ensures
        r@ == singularize_spec(table@),
{
    let cs = chars_of(table);
    let n = cs.len();
    let ends_sses = str_ends_with(table, "sses");
    let ends_shes = str_ends_with(table, "shes");
    let ends_ches = str_ends_with(table, "ches");
    let ends_xes = str_ends_with(table, "xes");
    let ends_zes = str_ends_with(table, "zes");
    let ends_ies = str_ends_with(table, "ies");
    let ends_s = str_ends_with(table, "s");
    proof {
        reveal_strlit("sses");
        reveal_strlit("shes");
        reveal_strlit("ches");
        reveal_strlit("xes");
        reveal_strlit("zes");
        reveal_strlit("ies");
        reveal_strlit("s");
    }
    if ends_sses || ends_shes || ends_ches || ends_xes || ends_zes {
        let mut p = String::new();
        push_prefix(&mut p, &cs, n - 2);
        assert(p@ =~= table@.subrange(0, table@.len() - 2));
        p
    } else if ends_ies {
        let mut p = String::new();
        push_prefix(&mut p, &cs, n - 3);
        push_char(&mut p, 'y');
        assert(p@ =~= table@.subrange(0, table@.len() - 3) + seq!['y']);
        p
    } else if ends_s {
        let mut p = String::new();
        push_prefix(&mut p, &cs, n - 1);
        assert(p@ =~= table@.subrange(0, table@.len() - 1));
        p
    } else {
        owned(table)
    }
}

/// Appends `cs[..upto]` to `out`.
fn push_prefix(out: &mut String, cs: &Vec<char>, upto: usize)
    requires
        upto <= cs.len(),
    ensures
        final(out)@ == old(out)@ + cs@.subrange(0, upto as int),
{
    let mut i: usize = 0;
    while i < upto
        invariant
            i <= upto,
            upto <= cs.len(),
            out@ == old(out)@ + cs@.subrange(0, i as int),
        decreases upto - i,
    {
        push_char(out, cs[i]);
        i = i + 1;
        assert(cs@.subrange(0, i as int) =~= cs@.subrange(0, i - 1).push(cs@[i - 1]));
    }
}

} // verus!
