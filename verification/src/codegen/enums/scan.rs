//! Detection of Postgres `CREATE TYPE <name> AS ENUM ('v1', ...)` statements
//! in migration SQL.
use vstd::prelude::*;
use vstd::string::*;
use crate::error::BlastError;
use crate::text::{chars_of, owned, push_char, trim, trim_seq, views};
use vstd::utf8::encode_utf8;
use crate::matching::{captures_iter_groups, group_at, group_view, group_views, regex_compiles, regex_groups, take_group};

verus! {

/// One parsed `CREATE TYPE ... AS ENUM (...)` declaration.
pub struct ParsedEnum {
    /// Type name as written in SQL (`user_role`).
    pub name: String,
    /// Variant literals in declaration order.
    pub variants: Vec<String>,
    /// Path of the migration file that declared the enum.
    pub source_file: String,
}

/// The statement pattern: group 1 is the type name, group 2 the variant list.
pub const ENUM_PATTERN: &'static str = r"(?is)create\s+type\s+([a-zA-Z_][a-zA-Z0-9_]*)\s+as\s+enum\s*\(([^)]*)\)";

/// Groups 1 and 2 of every match of `pattern` in `text`, left to right.
pub open spec fn regex_captures(pattern: Seq<char>, text: Seq<char>) -> Seq<(Option<Seq<char>>, Option<Seq<char>>)> {
    regex_groups(pattern, text, 2).map_values(|g: Seq<Option<Seq<char>>>| (group_at(g, 0), group_at(g, 1)))
}

pub open spec fn capture_views(v: Seq<(Option<String>, Option<String>)>) -> Seq<(Option<Seq<char>>, Option<Seq<char>>)> {
    v.map_values(|p: (Option<String>, Option<String>)| (group_view(p.0), group_view(p.1)))
}

/// Groups 1 and 2 of each match; `None` when the pattern does not compile.
fn regex_captures_12(pattern: &str, text: &str) -> (r: Option<Vec<(Option<String>, Option<String>)>>)
    ensures
        r is Some <==> regex_compiles(pattern@),
        r matches Some(v) ==> capture_views(v@) == regex_captures(pattern@, text@),
{
    let groups = match captures_iter_groups(pattern, text, 2) {
        Some(g) => g,
        None => {
            return None;
        },
    };
    let ghost src = groups@;
    let mut rest = groups;
    let mut out: Vec<(Option<String>, Option<String>)> = Vec::new();
    let ghost mut k: int = 0;
    assert(rest@ =~= src.skip(0));
    while rest.len() > 0
        invariant
            0 <= k <= src.len(),
            rest@ == src.skip(k),
            capture_views(out@) == group_views(src.take(k)).map_values(
                |g: Seq<Option<Seq<char>>>| (group_at(g, 0), group_at(g, 1)),
            ),
        decreases rest@.len(),
    {
        let mut g = rest.remove(0);
        assert(g == src[k]);
        let ghost gv = g@.map_values(|o: Option<String>| group_view(o));
        assert(gv == group_views(src)[k]);
        let a = take_group(&mut g, 0);
        let b = take_group(&mut g, 1);
        let ghost before = capture_views(out@);
        out.push((a, b));
        proof {
            assert(capture_views(out@) =~= before.push((group_at(gv, 0), group_at(gv, 1))));
            assert(group_views(src.take(k + 1)) =~= group_views(src.take(k)).push(gv));
            assert(rest@ =~= src.skip(k + 1));
            k = k + 1;
        }
    }
    assert(src.take(k) =~= src);
    Some(out)
}

// ---------------------------------------------------------------------------
// Line comments
// ---------------------------------------------------------------------------

/// Index of the first `--` that is not inside a single-quoted literal,
/// scanning from `i` with quote state `inq`.
pub open spec fn comment_from(l: Seq<char>, i: int, inq: bool) -> Option<int>
    decreases l.len() - i,
{
    if i < 0 || i + 1 >= l.len() {
        None
    } else if l[i] == '\'' {
        comment_from(l, i + 1, !inq)
    } else if !inq && l[i] == '-' && l[i + 1] == '-' {
        Some(i)
    } else {
        comment_from(l, i + 1, inq)
    }
}

/// A line with its `--` comment (if any) cut off, then a newline.
pub open spec fn emit_line(l: Seq<char>) -> Seq<char> {
    match comment_from(l, 0, false) {
        Some(i) => l.subrange(0, i) + seq!['\n'],
        None => l + seq!['\n'],
    }
}

/// A line as `str::lines` yields it when it ended with `\n`: a final `\r` is dropped.
pub open spec fn chomp_cr(l: Seq<char>) -> Seq<char> {
    if l.len() > 0 && l.last() == '\r' {
        l.drop_last()
    } else {
        l
    }
}

/// `strip_line_comments` over the rest `s` of the input, `cur` being the
/// part of the current line read so far.
pub open spec fn strip_from(s: Seq<char>, cur: Seq<char>) -> Seq<char>
    decreases s.len(),
{
    if s.len() == 0 {
        if cur.len() == 0 {
            seq![]
        } else {
            emit_line(cur)
        }
    } else if s[0] == '\n' {
        emit_line(chomp_cr(cur)) + strip_from(s.drop_first(), seq![])
    } else {
        strip_from(s.drop_first(), cur.push(s[0]))
    }
}

/// Each line of `sql` (as `str::lines` splits it) without its `--` comment,
/// followed by `\n`.
pub open spec fn strip_comments_spec(sql: Seq<char>) -> Seq<char> {
    strip_from(sql, seq![])
}

fn find_line_comment_start(line: &Vec<char>) -> (r: Option<usize>)
    ensures
        match r {
            Some(i) => comment_from(line@, 0, false) == Some(i as int),
            None => comment_from(line@, 0, false) is None,
        },
{
    let mut i: usize = 0;
    let mut in_single = false;
    while i < line.len() && i + 1 < line.len()
        invariant
            comment_from(line@, 0, false) == comment_from(line@, i as int, in_single),
        decreases line.len() - i,
    {
        let c = line[i];
        if c == '\'' {
            in_single = !in_single;
        } else if !in_single && c == '-' && line[i + 1] == '-' {
            return Some(i);
        }
        i = i + 1;
    }
    None
}

proof fn lemma_comment_bound(l: Seq<char>, i: int, inq: bool)
    ensures
        comment_from(l, i, inq) matches Some(k) ==> 0 <= k && k + 1 < l.len(),
    decreases l.len() - i,
{
    if 0 <= i && i + 1 < l.len() {
        lemma_comment_bound(l, i + 1, !inq);
        lemma_comment_bound(l, i + 1, inq);
    }
}

fn emit_stripped_line(out: &mut String, line: &Vec<char>)
    ensures
        final(out)@ == old(out)@ + emit_line(line@),
{
    let cut = find_line_comment_start(line);
    proof {
        lemma_comment_bound(line@, 0, false);
    }
    let end = match cut {
        Some(i) => i,
        None => line.len(),
    };
    let mut j: usize = 0;
    while j < end
        invariant
            j <= end,
            end <= line.len(),
            out@ == old(out)@ + line@.subrange(0, j as int),
        decreases end - j,
    {
        push_char(out, line[j]);
        j = j + 1;
        assert(line@.subrange(0, j as int) =~= line@.subrange(0, j - 1).push(line@[j - 1]));
    }
    push_char(out, '\n');
    assert(line@.subrange(0, line@.len() as int) =~= line@);
}

/// Removes `--` line comments (outside single-quoted literals) line by line.
pub fn strip_line_comments(sql: &str) -> (r: String)
    ensures
        r@ == strip_comments_spec(sql@),
{
    let cs = chars_of(sql);
    let mut out = String::new();
    let mut cur: Vec<char> = Vec::new();
    let mut i: usize = 0;
    assert(cs@.subrange(0, cs.len() as int) =~= cs@);
    assert(out@ + strip_from(cs@, seq![]) =~= strip_from(cs@, seq![]));
    while i < cs.len()
        invariant
            i <= cs.len(),
            cs@ == sql@,
            strip_from(cs@, seq![]) == out@ + strip_from(cs@.subrange(i as int, cs.len() as int), cur@),
        decreases cs.len() - i,
    {
        let c = cs[i];
        let ghost rest = cs@.subrange(i as int, cs.len() as int);
        assert(rest.drop_first() =~= cs@.subrange(i + 1, cs.len() as int));
        if c == '\n' {
            let ghost cur_old = cur@;
            if cur.len() > 0 && cur[cur.len() - 1] == '\r' {
                let _ = cur.pop();
            }
            assert(cur@ =~= chomp_cr(cur_old));
            let ghost o = out@;
            emit_stripped_line(&mut out, &cur);
            let ghost next = cs@.subrange(i + 1, cs.len() as int);
            assert(out@ + strip_from(next, seq![]) =~= o + (emit_line(chomp_cr(cur_old)) + strip_from(
                next,
                seq![],
            )));
            cur = Vec::new();
            assert(cur@ =~= Seq::<char>::empty());
        } else {
            cur.push(c);
        }
        i = i + 1;
    }
    assert(cs@.subrange(i as int, cs.len() as int) =~= Seq::<char>::empty());
    if cur.len() > 0 {
        emit_stripped_line(&mut out, &cur);
    }
    out
}

// ---------------------------------------------------------------------------
// Variant list
// ---------------------------------------------------------------------------

/// `char::is_whitespace` for a character taken from a single byte.
pub open spec fn is_ws_byte(b: u8) -> bool {
    b == 9 || b == 10 || b == 11 || b == 12 || b == 13 || b == 32 || b == 0x85 || b == 0xA0
}

/// Reads a single-quoted literal starting after the opening quote at `i`;
/// `''` stands for one quote. Returns the text and the index of the
/// closing quote, or `None` when the literal is unterminated.
pub open spec fn read_quoted(b: Seq<u8>, i: int, buf: Seq<char>) -> Option<(Seq<char>, int)>
    decreases b.len() - i,
{
    if i < 0 || i >= b.len() {
        None
    } else if b[i] == 39u8 {
        if i + 1 < b.len() && b[i + 1] == 39u8 {
            read_quoted(b, i + 2, buf.push('\''))
        } else {
            Some((buf, i))
        }
    } else {
        read_quoted(b, i + 1, buf.push(b[i] as char))
    }
}

pub proof fn lemma_read_quoted_ahead(b: Seq<u8>, i: int, buf: Seq<char>)
    ensures
        read_quoted(b, i, buf) matches Some((_, j)) ==> i <= j < b.len(),
    decreases b.len() - i,
{
    if 0 <= i < b.len() {
        if b[i] == 39u8 {
            if i + 1 < b.len() && b[i + 1] == 39u8 {
                lemma_read_quoted_ahead(b, i + 2, buf.push('\''));
            }
        } else {
            lemma_read_quoted_ahead(b, i + 1, buf.push(b[i] as char));
        }
    }
}

/// The variant list grammar: whitespace and commas separate single-quoted
/// literals; anything else is an error.
pub open spec fn variants_from(b: Seq<u8>, i: int, acc: Seq<Seq<char>>) -> Option<Seq<Seq<char>>>
    decreases b.len() - i,
{
    if i < 0 || i >= b.len() {
        Some(acc)
    } else if is_ws_byte(b[i]) || b[i] == 44u8 {
        variants_from(b, i + 1, acc)
    } else if b[i] != 39u8 {
        None
    } else {
        match read_quoted(b, i + 1, seq![]) {
            Some((v, j)) => {
                proof {
                    lemma_read_quoted_ahead(b, i + 1, seq![]);
                }
                variants_from(b, j + 1, acc.push(v))
            },
            None => None,
        }
    }
}

pub open spec fn variant_list_spec(body: Seq<u8>) -> Option<Seq<Seq<char>>> {
    variants_from(body, 0, seq![])
}

fn byte_is_ws(b: u8) -> (r: bool)
    ensures
        r == is_ws_byte(b),
{
    b == 9 || b == 10 || b == 11 || b == 12 || b == 13 || b == 32 || b == 0x85 || b == 0xA0
}

fn read_quoted_exec(bytes: &[u8], start: usize) -> (r: Option<(String, usize)>)
    requires
        start <= bytes@.len(),
    ensures
        match r {
            Some((s, j)) => read_quoted(bytes@, start as int, seq![]) == Some((s@, j as int)),
            None => read_quoted(bytes@, start as int, seq![]) is None,
        },
{
    let mut buf = String::new();
    let mut idx = start;
    while idx < bytes.len()
        invariant
            start <= idx <= bytes@.len(),
            read_quoted(bytes@, start as int, seq![]) == read_quoted(bytes@, idx as int, buf@),
        decreases bytes@.len() - idx,
    {
        let cur = bytes[idx];
        if cur == 39u8 {
            if idx + 1 < bytes.len() && bytes[idx + 1] == 39u8 {
                push_char(&mut buf, '\'');
                idx = idx + 2;
                continue;
            }
            return Some((buf, idx));
        }
        push_char(&mut buf, cur as char);
        idx = idx + 1;
    }
    None
}

/// Parses `'a', 'b''c'` into `["a", "b'c"]`.
fn parse_variant_list(body: &str, source: &str, enum_name: &str) -> (r: Result<Vec<String>, BlastError>)
    ensures
        match r {
            Ok(v) => variant_list_spec(body.spec_bytes()) == Some(crate::text::views(v@)),
            Err(e) => variant_list_spec(body.spec_bytes()) is None && e is Invalid,
        },
{
    let bytes = body.as_bytes();
    let mut variants: Vec<String> = Vec::new();
    let mut idx: usize = 0;
    assert(crate::text::views(variants@) =~= Seq::<Seq<char>>::empty());
    while idx < bytes.len()
        invariant
            idx <= bytes@.len(),
            bytes@ == body.spec_bytes(),
            variant_list_spec(body.spec_bytes()) == variants_from(bytes@, idx as int, crate::text::views(variants@)),
        decreases bytes@.len() - idx,
    {
        let ch = bytes[idx];
        if byte_is_ws(ch) || ch == 44u8 {
            idx = idx + 1;
            continue;
        }
        if ch != 39u8 {
            return Err(BlastError::Invalid(unexpected_char_message(enum_name, source)));
        }
        match read_quoted_exec(bytes, idx + 1) {
            Some((buf, end)) => {
                proof {
                    lemma_read_quoted_ahead(bytes@, idx + 1, seq![]);
                }
                let ghost old_vs = crate::text::views(variants@);
                variants.push(buf);
                assert(crate::text::views(variants@) =~= old_vs.push(buf@));
                idx = end + 1;
            },
            None => {
                return Err(BlastError::Invalid(unterminated_message(enum_name, source)));
            },
        }
    }
    Ok(variants)
}

fn unexpected_char_message(enum_name: &str, source: &str) -> (r: String)
    ensures
        r@ == "CREATE TYPE "@ + enum_name@ + " in "@ + source@ + ": expected single-quoted variant"@,
{
    let mut out = owned("CREATE TYPE ");
    out.append(enum_name);
    out.append(" in ");
    out.append(source);
    out.append(": expected single-quoted variant");
    out
}

fn unterminated_message(enum_name: &str, source: &str) -> (r: String)
    ensures
        r@ == "CREATE TYPE "@ + enum_name@ + " in "@ + source@ + ": unterminated variant literal"@,
{
    let mut out = owned("CREATE TYPE ");
    out.append(enum_name);
    out.append(" in ");
    out.append(source);
    out.append(": unterminated variant literal");
    out
}


// ---------------------------------------------------------------------------
// Statements
// ---------------------------------------------------------------------------

/// The (name, variants) of one statement match, or `None` when the match
/// is rejected: a group is missing, the trimmed name is empty, the variant
/// list does not parse or is empty.
pub open spec fn statement_spec(c: (Option<Seq<char>>, Option<Seq<char>>)) -> Option<(Seq<char>, Seq<Seq<char>>)> {
    match c {
        (Some(n), Some(b)) => {
            let name = trim_seq(n);
            if name.len() == 0 {
                None
            } else {
                match variant_list_spec(encode_utf8(b)) {
                    Some(vs) => if vs.len() > 0 {
                        Some((name, vs))
                    } else {
                        None
                    },
                    None => None,
                }
            }
        },
        _ => None,
    }
}

/// All statements, or `None` when any of them is rejected.
pub open spec fn statements_spec(cs: Seq<(Option<Seq<char>>, Option<Seq<char>>)>) -> Option<Seq<(Seq<char>, Seq<Seq<char>>)>>
    decreases cs.len(),
{
    if cs.len() == 0 {
        Some(seq![])
    } else {
        match (statements_spec(cs.drop_last()), statement_spec(cs.last())) {
            (Some(a), Some(x)) => Some(a.push(x)),
            _ => None,
        }
    }
}

pub open spec fn enum_view(p: ParsedEnum) -> (Seq<char>, Seq<Seq<char>>) {
    (p.name@, views(p.variants@))
}

pub open spec fn enum_views(v: Seq<ParsedEnum>) -> Seq<(Seq<char>, Seq<Seq<char>>)> {
    v.map_values(|p: ParsedEnum| enum_view(p))
}

proof fn lemma_statements_prefix_none(cs: Seq<(Option<Seq<char>>, Option<Seq<char>>)>, i: int)
    requires
        0 <= i <= cs.len(),
        statements_spec(cs.take(i)) is None,
    ensures
        statements_spec(cs) is None,
    decreases cs.len() - i,
{
    if i < cs.len() {
        assert(cs.take(i + 1).drop_last() =~= cs.take(i));
        lemma_statements_prefix_none(cs, i + 1);
    } else {
        assert(cs.take(i) =~= cs);
    }
}

/// Turns the statement matches of one SQL file into parsed enums; each
/// records `source` as its file. Fails on the first rejected match.
pub fn enums_from_captures(caps: Vec<(Option<String>, Option<String>)>, source: &str) -> (r: Result<Vec<ParsedEnum>, BlastError>)
    ensures
        match r {
            Ok(v) => statements_spec(capture_views(caps@)) == Some(enum_views(v@)) && forall|i: int|
                0 <= i < v@.len() ==> (#[trigger] v@[i]).source_file@ == source@,
            Err(e) => statements_spec(capture_views(caps@)) is None && e is Invalid,
        },
{
    let ghost cv = capture_views(caps@);
    let mut out: Vec<ParsedEnum> = Vec::new();
    let mut i: usize = 0;
    assert(cv.take(0) =~= Seq::<(Option<Seq<char>>, Option<Seq<char>>)>::empty());
    assert(enum_views(out@) =~= Seq::<(Seq<char>, Seq<Seq<char>>)>::empty());
    while i < caps.len()
        invariant
            i <= caps.len(),
            cv == capture_views(caps@),
            statements_spec(cv.take(i as int)) == Some(enum_views(out@)),
            forall|k: int| 0 <= k < out@.len() ==> (#[trigger] out@[k]).source_file@ == source@,
        decreases caps.len() - i,
    {
        let ghost t = cv.take(i + 1);
        assert(t.drop_last() =~= cv.take(i as int));
        assert(t.last() == cv[i as int]);
        let cap = &caps[i];
        let name = match &cap.0 {
            Some(m) => trim(m.as_str()),
            None => {
                proof { lemma_statements_prefix_none(cv, i + 1); }
                return Err(BlastError::Invalid(owned("CREATE TYPE is missing a type name")));
            },
        };
        let body = match &cap.1 {
            Some(m) => m,
            None => {
                proof { lemma_statements_prefix_none(cv, i + 1); }
                return Err(BlastError::Invalid(owned("CREATE TYPE is missing a variant list")));
            },
        };
        if name.as_str().is_empty() {
            proof {
                lemma_statements_prefix_none(cv, i + 1);
            }
            return Err(BlastError::Invalid(owned("CREATE TYPE is missing a type name")));
        }
        let variants = match parse_variant_list(body.as_str(), source, name.as_str()) {
            Ok(v) => v,
            Err(e) => {
                proof { lemma_statements_prefix_none(cv, i + 1); }
                return Err(e);
            },
        };
        if variants.len() == 0 {
            proof { lemma_statements_prefix_none(cv, i + 1); }
            return Err(BlastError::Invalid(owned("CREATE TYPE declared with zero variants")));
        }
        let ghost old_views = enum_views(out@);
        let pe = ParsedEnum { name, variants, source_file: owned(source) };
        out.push(pe);
        assert(enum_views(out@) =~= old_views.push(enum_view(pe)));
        i = i + 1;
    }
    assert(cv.take(caps.len() as int) =~= cv);
    Ok(out)
}

/// Parses every `CREATE TYPE <name> AS ENUM (...)` statement of one SQL
/// file body (line comments removed first); each records `source` as its
/// file. Fails with `Pattern` exactly when the built-in pattern does not
/// compile.
pub fn parse_enums_in_sql(body: &str, source: &str) -> (r: Result<Vec<ParsedEnum>, BlastError>)
    ensures
        r matches Err(BlastError::Pattern) <==> !regex_compiles(ENUM_PATTERN@),
        match r {
            Ok(v) => statements_spec(regex_captures(ENUM_PATTERN@, strip_comments_spec(body@))) == Some(
                enum_views(v@),
            ) && forall|i: int| 0 <= i < v@.len() ==> (#[trigger] v@[i]).source_file@ == source@,
            Err(BlastError::Invalid(_)) => statements_spec(
                regex_captures(ENUM_PATTERN@, strip_comments_spec(body@)),
            ) is None,
            Err(BlastError::Pattern) => true,
            Err(_) => false,
        },
        regex_compiles(ENUM_PATTERN@) ==> (r is Ok <==> statements_spec(
            regex_captures(ENUM_PATTERN@, strip_comments_spec(body@)),
        ) is Some),
{
    let cleaned = strip_line_comments(body);
    match regex_captures_12(ENUM_PATTERN, cleaned.as_str()) {
        Some(caps) => enums_from_captures(caps, source),
        None => Err(BlastError::Pattern),
    }
}

/// Result of scanning every migration: each enum once (the first
/// declaration wins), sorted by name, and the names declared again later.
pub struct ScanReport {
    pub enums: Vec<ParsedEnum>,
    pub duplicates: Vec<String>,
}

/// Hand-written enum declarations: group 1 is the type name.
pub const PUB_ENUM_PATTERN: &'static str = r"\bpub\s+enum\s+([A-Z][A-Za-z0-9_]*)\b";

/// The group-1 texts of the captures, in order.
pub open spec fn group1_names(cs: Seq<(Option<Seq<char>>, Option<Seq<char>>)>) -> Seq<Seq<char>>
    decreases cs.len(),
{
    if cs.len() == 0 {
        seq![]
    } else {
        match cs.last().0 {
            Some(n) => group1_names(cs.drop_last()).push(n),
            None => group1_names(cs.drop_last()),
        }
    }
}

/// Names of the `pub enum` declarations in one Rust source, in order.
pub fn enums_declared_in(body: &str) -> (r: Result<Vec<String>, BlastError>)
    ensures
        match r {
            Ok(v) => views(v@) == group1_names(regex_captures(PUB_ENUM_PATTERN@, body@)),
            Err(e) => e is Pattern,
        },
        r is Ok <==> regex_compiles(PUB_ENUM_PATTERN@),
{
    let caps = match regex_captures_12(PUB_ENUM_PATTERN, body) {
        Some(c) => c,
        None => {
            return Err(BlastError::Pattern);
        },
    };
    let ghost cv = capture_views(caps@);
    let mut out: Vec<String> = Vec::new();
    let mut i: usize = 0;
    while i < caps.len()
        invariant
            i <= caps@.len(),
            cv == capture_views(caps@),
            views(out@) == group1_names(cv.take(i as int)),
        decreases caps@.len() - i,
    {
        assert(cv.take(i + 1).drop_last() =~= cv.take(i as int));
        assert(cv.take(i + 1).last() == cv[i as int]);
        match &caps[i].0 {
            Some(n) => {
                let ghost before = views(out@);
                out.push(owned(n.as_str()));
                assert(views(out@) =~= before.push(n@));
            },
            None => {},
        }
        i = i + 1;
    }
    assert(cv.take(caps@.len() as int) =~= cv);
    Ok(out)
}

/// Every enum name declared across the sources, concatenated in order.
pub open spec fn declared_names(bodies: Seq<Seq<char>>) -> Seq<Seq<char>>
    decreases bodies.len(),
{
    if bodies.len() == 0 {
        seq![]
    } else {
        declared_names(bodies.drop_last()) + group1_names(regex_captures(PUB_ENUM_PATTERN@, bodies.last()))
    }
}

/// Names of the `pub enum` declarations across the hand-written Rust
/// sources (their contents, as read), sorted and each once.
pub fn existing_user_enums(sources: &Vec<String>) -> (r: Result<Vec<String>, BlastError>)
    ensures
        match r {
            Ok(v) => views(v@) == crate::text::sorted_distinct(declared_names(views(sources@))),
            Err(e) => e is Pattern,
        },
        r is Ok <==> (sources@.len() == 0 || regex_compiles(PUB_ENUM_PATTERN@)),
{
    let ghost sv = views(sources@);
    let mut all: Vec<String> = Vec::new();
    let mut i: usize = 0;
    while i < sources.len()
        invariant
            i <= sources@.len(),
            sv == views(sources@),
            views(all@) == declared_names(sv.take(i as int)),
            i > 0 ==> regex_compiles(PUB_ENUM_PATTERN@),
        decreases sources@.len() - i,
    {
        let found = enums_declared_in(sources[i].as_str());
        match found {
            Ok(names) => {
                let ghost before = views(all@);
                let mut k: usize = 0;
                while k < names.len()
                    invariant
                        k <= names@.len(),
                        views(all@) == before + views(names@).take(k as int),
                    decreases names@.len() - k,
                {
                    let ghost prev = views(all@);
                    let nk = owned(names[k].as_str());
                    let ghost nv = nk@;
                    all.push(nk);
                    assert(views(all@) =~= prev.push(nv));
                    assert(views(names@).take(k + 1) =~= views(names@).take(k as int).push(names@[k as int]@));
                    k = k + 1;
                }
                assert(views(names@).take(names@.len() as int) =~= views(names@));
                assert(sv.take(i + 1).drop_last() =~= sv.take(i as int));
                assert(sv.take(i + 1).last() == sources@[i as int]@);
            },
            Err(e) => {
                return Err(e);
            },
        }
        i = i + 1;
    }
    assert(sv.take(sources@.len() as int) =~= sv);
    Ok(crate::text::sort_dedup_strings(all))
}

} // verus!
