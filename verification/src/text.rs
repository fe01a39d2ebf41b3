//! Character-level string helpers shared by every renderer: case mapping,
//! comparisons, escaping and a verified lexicographic sort.
use vstd::prelude::*;
use vstd::relations::*;
use vstd::string::*;

verus! {

// ---------------------------------------------------------------------------
// Spec vocabulary
// ---------------------------------------------------------------------------

/// The abstract contents of a sequence of owned strings.
pub open spec fn views(v: Seq<String>) -> Seq<Seq<char>> {
    v.map_values(|s: String| s@)
}

pub open spec fn is_ascii_upper(c: char) -> bool {
    'A' <= c && c <= 'Z'
}

pub open spec fn is_ascii_lower(c: char) -> bool {
    'a' <= c && c <= 'z'
}

pub open spec fn is_ascii_digit(c: char) -> bool {
    '0' <= c && c <= '9'
}

pub open spec fn is_ascii_alnum(c: char) -> bool {
    is_ascii_upper(c) || is_ascii_lower(c) || is_ascii_digit(c)
}

pub open spec fn is_ascii_char(c: char) -> bool {
    (c as u32) < 128
}

/// `char::to_ascii_lowercase`.
pub open spec fn lower_ascii(c: char) -> char {
    if is_ascii_upper(c) {
        ((c as u32) + 32) as char
    } else {
        c
    }
}

/// `char::to_ascii_uppercase`.
pub open spec fn upper_ascii(c: char) -> char {
    if is_ascii_lower(c) {
        ((c as u32) - 32) as char
    } else {
        c
    }
}

/// `str::to_ascii_lowercase`.
pub open spec fn lower_seq(s: Seq<char>) -> Seq<char> {
    s.map_values(|c: char| lower_ascii(c))
}

/// The Unicode upper-case mapping of one character (`char::to_uppercase`).
pub uninterp spec fn unicode_upper(c: char) -> Seq<char>;

/// The Unicode lower-case mapping of one character (`char::to_lowercase`).
pub uninterp spec fn unicode_lower(c: char) -> Seq<char>;

/// `unicode_upper` as documented for ASCII input; other characters keep
/// their (named) mapping.
pub open spec fn upper_of(c: char) -> Seq<char> {
    if is_ascii_char(c) {
        seq![upper_ascii(c)]
    } else {
        unicode_upper(c)
    }
}

/// `unicode_lower` as documented for ASCII input.
pub open spec fn lower_of(c: char) -> Seq<char> {
    if is_ascii_char(c) {
        seq![lower_ascii(c)]
    } else {
        unicode_lower(c)
    }
}

/// `char::is_whitespace` (the Unicode `White_Space` property).
pub open spec fn is_ws(c: char) -> bool {
    let n = c as u32;
    (9 <= n && n <= 13) || n == 32 || n == 0x85 || n == 0xA0 || n == 0x1680 || (0x2000 <= n && n
        <= 0x200A) || n == 0x2028 || n == 0x2029 || n == 0x202F || n == 0x205F || n == 0x3000
}

/// Leading whitespace removed.
pub open spec fn trim_start_seq(s: Seq<char>) -> Seq<char>
    decreases s.len(),
{
    if s.len() > 0 && is_ws(s[0]) {
        trim_start_seq(s.drop_first())
    } else {
        s
    }
}

/// Trailing whitespace removed.
pub open spec fn trim_end_seq(s: Seq<char>) -> Seq<char>
    decreases s.len(),
{
    if s.len() > 0 && is_ws(s.last()) {
        trim_end_seq(s.drop_last())
    } else {
        s
    }
}

/// `str::trim`.
pub open spec fn trim_seq(s: Seq<char>) -> Seq<char> {
    trim_end_seq(trim_start_seq(s))
}

/// `a` is a contiguous part of `s`.
pub open spec fn seq_contains(s: Seq<char>, a: Seq<char>) -> bool {
    exists|i: int| 0 <= i <= s.len() - a.len() && #[trigger] s.subrange(i, i + a.len()) == a
}

pub open spec fn seq_ends_with(s: Seq<char>, a: Seq<char>) -> bool {
    a.len() <= s.len() && s.subrange(s.len() - a.len(), s.len() as int) == a
}

pub open spec fn seq_starts_with(s: Seq<char>, a: Seq<char>) -> bool {
    a.len() <= s.len() && s.subrange(0, a.len() as int) == a
}

/// Lexicographic order on characters (the order `str`'s `Ord` uses).
pub open spec fn seq_le(a: Seq<char>, b: Seq<char>) -> bool
    decreases a.len(),
{
    if a.len() == 0 {
        true
    } else if b.len() == 0 {
        false
    } else if a[0] != b[0] {
        a[0] < b[0]
    } else {
        seq_le(a.drop_first(), b.drop_first())
    }
}

pub open spec fn lex() -> spec_fn(Seq<char>, Seq<char>) -> bool {
    |a: Seq<char>, b: Seq<char>| seq_le(a, b)
}

/// Rust-string escaping of a backslash and a double quote
/// (`s.replace('\\', "\\\\").replace('"', "\\\"")`).
pub open spec fn escape_dq(s: Seq<char>) -> Seq<char>
    decreases s.len(),
{
    if s.len() == 0 {
        seq![]
    } else {
        let c = s[0];
        let head = if c == '\\' {
            seq!['\\', '\\']
        } else if c == '"' {
            seq!['\\', '"']
        } else {
            seq![c]
        };
        head + escape_dq(s.drop_first())
    }
}

/// Single-quote escaping (`s.replace('\\', "\\\\").replace('\'', "\\'")`).
pub open spec fn escape_sq(s: Seq<char>) -> Seq<char>
    decreases s.len(),
{
    if s.len() == 0 {
        seq![]
    } else {
        let c = s[0];
        let head = if c == '\\' {
            seq!['\\', '\\']
        } else if c == '\'' {
            seq!['\\', '\'']
        } else {
            seq![c]
        };
        head + escape_sq(s.drop_first())
    }
}

/// Joins `parts` with `sep` (`slice::join`).
pub open spec fn join(parts: Seq<Seq<char>>, sep: Seq<char>) -> Seq<char>
    decreases parts.len(),
{
    if parts.len() == 0 {
        seq![]
    } else if parts.len() == 1 {
        parts[0]
    } else {
        join(parts.drop_last(), sep) + sep + parts.last()
    }
}

/// The concatenation of `f` over the elements of `s`, in order.
pub open spec fn concat_map<A>(s: Seq<A>, f: spec_fn(A) -> Seq<char>) -> Seq<char>
    decreases s.len(),
{
    if s.len() == 0 {
        seq![]
    } else {
        concat_map(s.drop_last(), f) + f(s.last())
    }
}

pub proof fn lemma_concat_map_step<A>(s: Seq<A>, i: int, f: spec_fn(A) -> Seq<char>)
    requires
        0 <= i < s.len(),
    ensures
        concat_map(s.take(i + 1), f) == concat_map(s.take(i), f) + f(s[i]),
{
    assert(s.take(i + 1).drop_last() =~= s.take(i));
}

pub proof fn lemma_concat_map_all<A>(s: Seq<A>, f: spec_fn(A) -> Seq<char>)
    ensures
        concat_map(s.take(s.len() as int), f) == concat_map(s, f),
{
    assert(s.take(s.len() as int) =~= s);
}

/// Adjacent duplicates removed.
pub open spec fn dedup(s: Seq<Seq<char>>) -> Seq<Seq<char>>
    decreases s.len(),
{
    if s.len() == 0 {
        seq![]
    } else {
        let d = dedup(s.drop_last());
        if d.len() > 0 && d.last() == s.last() {
            d
        } else {
            d.push(s.last())
        }
    }
}

/// The distinct elements of `s` in lexicographic order (what collecting into
/// a `BTreeSet<String>` and iterating yields).
pub open spec fn sorted_distinct(s: Seq<Seq<char>>) -> Seq<Seq<char>> {
    dedup(s.sort_by(lex()))
}

// ---------------------------------------------------------------------------
// Lemmas on the lexicographic order
// ---------------------------------------------------------------------------

pub proof fn lemma_le_refl(a: Seq<char>)
    ensures
        seq_le(a, a),
    decreases a.len(),
{
    if a.len() > 0 {
        lemma_le_refl(a.drop_first());
    }
}

pub proof fn lemma_le_antisym(a: Seq<char>, b: Seq<char>)
    requires
        seq_le(a, b),
        seq_le(b, a),
    ensures
        a == b,
    decreases a.len(),
{
    if a.len() > 0 && b.len() > 0 && a[0] == b[0] {
        lemma_le_antisym(a.drop_first(), b.drop_first());
        assert(a =~= seq![a[0]] + a.drop_first());
        assert(b =~= seq![b[0]] + b.drop_first());
    }
}

pub proof fn lemma_le_trans(a: Seq<char>, b: Seq<char>, c: Seq<char>)
    requires
        seq_le(a, b),
        seq_le(b, c),
    ensures
        seq_le(a, c),
    decreases a.len(),
{
    if a.len() > 0 && b.len() > 0 && c.len() > 0 && a[0] == b[0] && b[0] == c[0] {
        lemma_le_trans(a.drop_first(), b.drop_first(), c.drop_first());
    }
}

pub proof fn lemma_le_total(a: Seq<char>, b: Seq<char>)
    ensures
        seq_le(a, b) || seq_le(b, a),
    decreases a.len(),
{
    if a.len() > 0 && b.len() > 0 && a[0] == b[0] {
        lemma_le_total(a.drop_first(), b.drop_first());
    }
}

/// The lexicographic order is a total order.
pub proof fn lemma_lex_total_ordering()
    ensures
        total_ordering(lex()),
{
    assert forall|x: Seq<char>| #[trigger] lex()(x, x) by {
        lemma_le_refl(x);
    }
    assert forall|x: Seq<char>, y: Seq<char>| #[trigger] lex()(x, y) && #[trigger] lex()(y, x) implies x
        == y by {
        lemma_le_antisym(x, y);
    }
    assert forall|x: Seq<char>, y: Seq<char>, z: Seq<char>| #[trigger]
        lex()(x, y) && #[trigger] lex()(y, z) implies lex()(x, z) by {
        lemma_le_trans(x, y, z);
    }
    assert forall|x: Seq<char>, y: Seq<char>| #[trigger] lex()(x, y) || #[trigger] lex()(y, x) by {
        lemma_le_total(x, y);
    }
}

// ---------------------------------------------------------------------------
// Trusted std calls
// ---------------------------------------------------------------------------

/// `String::push`: appends one character to the string.
#[verifier::external_body]
pub(crate) fn push_char(s: &mut String, c: char)
    ensures
        final(s)@ == old(s)@.push(c),
{
    s.push(c);
}

/// `char::to_uppercase`, collected into a `String`. std documents that an
/// ASCII character maps to its ASCII upper-case form; for other characters
/// the contract only names the mapping.
#[verifier::external_body]
pub(crate) fn char_to_upper(c: char) -> (r: String)
    ensures
        r@ == unicode_upper(c),
        is_ascii_char(c) ==> r@ == seq![upper_ascii(c)],
{
    c.to_uppercase().collect::<String>()
}

/// `char::to_lowercase`, collected into a `String`, documented as above
/// for ASCII input.
#[verifier::external_body]
pub(crate) fn char_to_lower(c: char) -> (r: String)
    ensures
        r@ == unicode_lower(c),
        is_ascii_char(c) ==> r@ == seq![lower_ascii(c)],
{
    c.to_lowercase().collect::<String>()
}

/// The Unicode upper-case form of a string (`str::to_uppercase`).
pub uninterp spec fn unicode_upper_str(s: Seq<char>) -> Seq<char>;

/// The Unicode lower-case form of a string (`str::to_lowercase`).
pub uninterp spec fn unicode_lower_str(s: Seq<char>) -> Seq<char>;

/// Whether every character of `s` is ASCII.
pub open spec fn all_ascii(s: Seq<char>) -> bool {
    forall|i: int| 0 <= i < s.len() ==> is_ascii_char(#[trigger] s[i])
}

/// `str::to_ascii_uppercase`.
pub open spec fn upper_seq(s: Seq<char>) -> Seq<char> {
    s.map_values(|c: char| upper_ascii(c))
}

/// `str::to_uppercase`. The contract names the mapping; for an ASCII string
/// it is the ASCII upper-casing, as for `char::to_uppercase`.
#[verifier::external_body]
pub(crate) fn str_to_uppercase(s: &str) -> (r: String)
    ensures
        r@ == unicode_upper_str(s@),
        all_ascii(s@) ==> r@ == upper_seq(s@),
{
    s.to_uppercase()
}

/// `str::to_lowercase`. The contract names the mapping; for an ASCII string
/// it is the ASCII lower-casing.
#[verifier::external_body]
pub(crate) fn str_to_lowercase(s: &str) -> (r: String)
    ensures
        r@ == unicode_lower_str(s@),
        all_ascii(s@) ==> r@ == lower_seq(s@),
{
    s.to_lowercase()
}

// ---------------------------------------------------------------------------
// Verified helpers
// ---------------------------------------------------------------------------

/// The characters of `s`, in order.
pub fn chars_of(s: &str) -> (v: Vec<char>)
    ensures
        v@ == s@,
{
    let mut v: Vec<char> = Vec::new();
    for c in it: s.chars()
        invariant
            v@ == it.seq().take(it.index() as int),
            it.seq() == s@,
    {
        v.push(c);
    }
    v
}

/// A fresh `String` holding `s`.
pub fn owned(s: &str) -> (r: String)
    ensures
        r@ == s@,
{
    let mut r = String::new();
    r.append(s);
    r
}

/// Appends the characters `cs[from..]` to `out`.
pub fn push_all(out: &mut String, cs: &Vec<char>, from: usize)
    requires
        from <= cs.len(),
    ensures
        final(out)@ == old(out)@ + cs@.subrange(from as int, cs.len() as int),
{
    let mut i = from;
    while i < cs.len()
        invariant
            from <= i <= cs.len(),
            out@ == old(out)@ + cs@.subrange(from as int, i as int),
        decreases cs.len() - i,
    {
        push_char(out, cs[i]);
        i = i + 1;
        assert(cs@.subrange(from as int, i as int) =~= cs@.subrange(from as int, i - 1).push(
            cs@[i - 1],
        ));
    }
}

pub fn c_is_ascii_alnum(c: char) -> (r: bool)
    ensures
        r == is_ascii_alnum(c),
{
    ('A' <= c && c <= 'Z') || ('a' <= c && c <= 'z') || ('0' <= c && c <= '9')
}

pub fn c_lower_ascii(c: char) -> (r: char)
    ensures
        r == lower_ascii(c),
{
    if 'A' <= c && c <= 'Z' {
        let n: u32 = c as u32;
        char_from_u32_ascii(n + 32)
    } else {
        c
    }
}

pub fn c_upper_ascii(c: char) -> (r: char)
    ensures
        r == upper_ascii(c),
{
    if 'a' <= c && c <= 'z' {
        let n: u32 = c as u32;
        char_from_u32_ascii(n - 32)
    } else {
        c
    }
}

fn char_from_u32_ascii(n: u32) -> (r: char)
    requires
        n < 128,
    ensures
        r == n as char,
{
    let b: u8 = n as u8;
    b as char
}

/// `str::to_ascii_lowercase`.
pub fn to_ascii_lower(s: &str) -> (r: String)
    ensures
        r@ == lower_seq(s@),
{
    let cs = chars_of(s);
    let mut r = String::new();
    let mut i: usize = 0;
    while i < cs.len()
        invariant
            i <= cs.len(),
            cs@ == s@,
            r@ == lower_seq(cs@.take(i as int)),
        decreases cs.len() - i,
    {
        let c = c_lower_ascii(cs[i]);
        push_char(&mut r, c);
        i = i + 1;
        assert(lower_seq(cs@.take(i as int)) =~= lower_seq(cs@.take(i - 1)).push(lower_ascii(cs@[i - 1])));
    }
    assert(cs@.take(cs.len() as int) =~= cs@);
    r
}

pub fn c_is_ws(c: char) -> (r: bool)
    ensures
        r == is_ws(c),
{
    let n: u32 = c as u32;
    (9 <= n && n <= 13) || n == 32 || n == 0x85 || n == 0xA0 || n == 0x1680 || (0x2000 <= n && n
        <= 0x200A) || n == 0x2028 || n == 0x2029 || n == 0x202F || n == 0x205F || n == 0x3000
}

/// `str::trim`, as an owned string.
pub fn trim(s: &str) -> (r: String)
    ensures
        r@ == trim_seq(s@),
{
    let cs = chars_of(s);
    let mut a: usize = 0;
    assert(cs@.subrange(0, cs.len() as int) =~= cs@);
    while a < cs.len() && c_is_ws(cs[a])
        invariant
            a <= cs.len(),
            cs@ == s@,
            trim_start_seq(cs@) == trim_start_seq(cs@.subrange(a as int, cs.len() as int)),
        decreases cs.len() - a,
    {
        assert(cs@.subrange(a as int, cs.len() as int).drop_first() =~= cs@.subrange(a + 1, cs.len() as int));
        a = a + 1;
    }
    let ghost mid = cs@.subrange(a as int, cs.len() as int);
    assert(trim_start_seq(cs@) == mid) by {
        if a < cs.len() {
            assert(mid[0] == cs@[a as int]);
        }
    }
    let mut b: usize = cs.len();
    while b > a && c_is_ws(cs[b - 1])
        invariant
            a <= b <= cs.len(),
            trim_end_seq(mid) == trim_end_seq(cs@.subrange(a as int, b as int)),
        decreases b,
    {
        assert(cs@.subrange(a as int, b as int).drop_last() =~= cs@.subrange(a as int, b - 1));
        b = b - 1;
    }
    let mut r = String::new();
    let mut i = a;
    while i < b
        invariant
            a <= i <= b,
            b <= cs.len(),
            r@ == cs@.subrange(a as int, i as int),
        decreases b - i,
    {
        push_char(&mut r, cs[i]);
        i = i + 1;
        assert(cs@.subrange(a as int, i as int) =~= cs@.subrange(a as int, i - 1).push(cs@[i - 1]));
    }
    proof {
        let t = cs@.subrange(a as int, b as int);
        if t.len() > 0 {
            assert(t.last() == cs@[b - 1]);
        }
    }
    r
}

/// Character-wise equality of two character vectors.
pub fn chars_eq(a: &Vec<char>, b: &Vec<char>) -> (r: bool)
    ensures
        r == (a@ == b@),
{
    if a.len() != b.len() {
        return false;
    }
    let mut i: usize = 0;
    while i < a.len()
        invariant
            i <= a.len(),
            a.len() == b.len(),
            forall|j: int| 0 <= j < i ==> a@[j] == b@[j],
        decreases a.len() - i,
    {
        if a[i] != b[i] {
            return false;
        }
        i = i + 1;
    }
    assert(a@ =~= b@);
    true
}

/// `a == b` on string slices.
pub fn str_eq(a: &str, b: &str) -> (r: bool)
    ensures
        r == (a@ == b@),
{
    let ca = chars_of(a);
    let cb = chars_of(b);
    chars_eq(&ca, &cb)
}

/// `a.eq_ignore_ascii_case(b)`.
pub fn eq_ignore_ascii_case(a: &str, b: &str) -> (r: bool)
    ensures
        r == (lower_seq(a@) == lower_seq(b@)),
{
    let la = to_ascii_lower(a);
    let lb = to_ascii_lower(b);
    str_eq(la.as_str(), lb.as_str())
}

/// `hay.contains(needle)`.
pub fn str_contains(hay: &str, needle: &str) -> (r: bool)
    ensures
        r == seq_contains(hay@, needle@),
{
    let h = chars_of(hay);
    let n = chars_of(needle);
    if n.len() > h.len() {
        return false;
    }
    let last = h.len() - n.len();
    let mut i: usize = 0;
    while i < last
        invariant
            h@ == hay@,
            n@ == needle@,
            n.len() <= h.len(),
            last == h.len() - n.len(),
            i <= last,
            forall|k: int| 0 <= k < i ==> #[trigger] h@.subrange(k, k + n@.len()) != n@,
        decreases last - i,
    {
        if matches_at(&h, &n, i) {
            assert(h@.subrange(i as int, i + n@.len()) == n@);
            return true;
        }
        i = i + 1;
    }
    if matches_at(&h, &n, last) {
        assert(h@.subrange(last as int, last + n@.len()) == n@);
        return true;
    }
    assert forall|k: int| 0 <= k <= h@.len() - n@.len() implies #[trigger] h@.subrange(k, k + n@.len())
        != n@ by {}
    false
}

/// `n` occurs in `h` at position `at`.
fn matches_at(h: &Vec<char>, n: &Vec<char>, at: usize) -> (r: bool)
    requires
        at + n.len() <= h.len(),
    ensures
        r == (h@.subrange(at as int, at + n@.len()) == n@),
{
    let mut j: usize = 0;
    while j < n.len()
        invariant
            j <= n.len(),
            at + n.len() <= h.len(),
            forall|k: int| 0 <= k < j ==> h@[at + k] == n@[k],
        decreases n.len() - j,
    {
        if h[at + j] != n[j] {
            assert(h@.subrange(at as int, at + n@.len())[j as int] != n@[j as int]);
            return false;
        }
        j = j + 1;
    }
    assert(h@.subrange(at as int, at + n@.len()) =~= n@);
    true
}

/// `s.ends_with(suffix)`.
pub fn str_ends_with(s: &str, suffix: &str) -> (r: bool)
    ensures
        r == seq_ends_with(s@, suffix@),
{
    let h = chars_of(s);
    let n = chars_of(suffix);
    if n.len() > h.len() {
        return false;
    }
    matches_at(&h, &n, h.len() - n.len())
}

/// `s.starts_with(prefix)`.
pub fn str_starts_with(s: &str, prefix: &str) -> (r: bool)
    ensures
        r == seq_starts_with(s@, prefix@),
{
    let h = chars_of(s);
    let n = chars_of(prefix);
    if n.len() > h.len() {
        return false;
    }
    matches_at(&h, &n, 0)
}

/// Rust-string escaping of `\` and `"`.
pub fn escape_double_quoted(s: &str) -> (r: String)
    ensures
        r@ == escape_dq(s@),
{
    let cs = chars_of(s);
    let mut r = String::new();
    let mut i: usize = 0;
    assert(cs@.subrange(0, cs.len() as int) =~= cs@);
    assert(r@ + escape_dq(cs@) =~= escape_dq(cs@));
    while i < cs.len()
        invariant
            i <= cs.len(),
            cs@ == s@,
            escape_dq(cs@) == r@ + escape_dq(cs@.subrange(i as int, cs.len() as int)),
        decreases cs.len() - i,
    {
        let c = cs[i];
        let ghost rest = cs@.subrange(i as int, cs.len() as int);
        let ghost old_r = r@;
        assert(rest.drop_first() =~= cs@.subrange(i + 1, cs.len() as int));
        if c == '\\' {
            push_char(&mut r, '\\');
            push_char(&mut r, '\\');
            assert(r@ =~= old_r + seq!['\\', '\\']);
        } else if c == '"' {
            push_char(&mut r, '\\');
            push_char(&mut r, '"');
            assert(r@ =~= old_r + seq!['\\', '"']);
        } else {
            push_char(&mut r, c);
            assert(r@ =~= old_r + seq![c]);
        }
        i = i + 1;
        assert(escape_dq(cs@) =~= r@ + escape_dq(cs@.subrange(i as int, cs.len() as int)));
    }
    r
}

/// Single-quote escaping of `\` and `'`.
pub fn escape_single_quoted(s: &str) -> (r: String)
    ensures
        r@ == escape_sq(s@),
{
    let cs = chars_of(s);
    let mut r = String::new();
    let mut i: usize = 0;
    assert(cs@.subrange(0, cs.len() as int) =~= cs@);
    assert(r@ + escape_sq(cs@) =~= escape_sq(cs@));
    while i < cs.len()
        invariant
            i <= cs.len(),
            cs@ == s@,
            escape_sq(cs@) == r@ + escape_sq(cs@.subrange(i as int, cs.len() as int)),
        decreases cs.len() - i,
    {
        let c = cs[i];
        let ghost rest = cs@.subrange(i as int, cs.len() as int);
        let ghost old_r = r@;
        assert(rest.drop_first() =~= cs@.subrange(i + 1, cs.len() as int));
        if c == '\\' {
            push_char(&mut r, '\\');
            push_char(&mut r, '\\');
            assert(r@ =~= old_r + seq!['\\', '\\']);
        } else if c == '\'' {
            push_char(&mut r, '\\');
            push_char(&mut r, '\'');
            assert(r@ =~= old_r + seq!['\\', '\'']);
        } else {
            push_char(&mut r, c);
            assert(r@ =~= old_r + seq![c]);
        }
        i = i + 1;
        assert(escape_sq(cs@) =~= r@ + escape_sq(cs@.subrange(i as int, cs.len() as int)));
    }
    r
}

/// `seq_le` on character vectors.
pub fn chars_le(a: &Vec<char>, b: &Vec<char>) -> (r: bool)
    ensures
        r == seq_le(a@, b@),
{
    let mut i: usize = 0;
    assert(a@.subrange(0, a.len() as int) =~= a@);
    assert(b@.subrange(0, b.len() as int) =~= b@);
    while i < a.len() && i < b.len() && a[i] == b[i]
        invariant
            i <= a.len(),
            i <= b.len(),
            forall|k: int| 0 <= k < i ==> a@[k] == b@[k],
            seq_le(a@, b@) == seq_le(a@.subrange(i as int, a.len() as int), b@.subrange(i as int, b.len() as int)),
        decreases a.len() - i,
    {
        let ghost sa = a@.subrange(i as int, a.len() as int);
        let ghost sb = b@.subrange(i as int, b.len() as int);
        assert(sa.drop_first() =~= a@.subrange(i + 1, a.len() as int));
        assert(sb.drop_first() =~= b@.subrange(i + 1, b.len() as int));
        i = i + 1;
    }
    let ghost sa = a@.subrange(i as int, a.len() as int);
    let ghost sb = b@.subrange(i as int, b.len() as int);
    if i == a.len() {
        true
    } else if i == b.len() {
        false
    } else {
        assert(sa[0] == a@[i as int] && sb[0] == b@[i as int]);
        a[i] < b[i]
    }
}

/// `a <= b` on string slices, lexicographically.
pub fn str_le(a: &str, b: &str) -> (r: bool)
    ensures
        r == seq_le(a@, b@),
{
    let ca = chars_of(a);
    let cb = chars_of(b);
    chars_le(&ca, &cb)
}

/// Joins `parts` with `sep` (`slice::join`).
pub fn join_strings(parts: &Vec<String>, sep: &str) -> (r: String)
    ensures
        r@ == join(views(parts@), sep@),
{
    let mut r = String::new();
    let mut i: usize = 0;
    while i < parts.len()
        invariant
            i <= parts.len(),
            r@ == join(views(parts@).take(i as int), sep@),
        decreases parts.len() - i,
    {
        let ghost t = views(parts@).take(i + 1);
        assert(t.drop_last() =~= views(parts@).take(i as int));
        assert(t.last() == parts@[i as int]@);
        if i > 0 {
            r.append(sep);
        } else {
            assert(views(parts@).take(i as int).len() == 0);
        }
        r.append(parts[i].as_str());
        i = i + 1;
    }
    assert(views(parts@).take(parts.len() as int) =~= views(parts@));
    r
}

/// `s.trim_end_matches('\n')`.
pub open spec fn trim_end_newlines(s: Seq<char>) -> Seq<char>
    decreases s.len(),
{
    if s.len() > 0 && s.last() == '\n' {
        trim_end_newlines(s.drop_last())
    } else {
        s
    }
}

/// `format!("{}\n", s.trim_end_matches('\n'))`: exactly one trailing newline.
pub fn with_single_trailing_newline(s: &String) -> (r: String)
    ensures
        r@ == trim_end_newlines(s@) + seq!['\n'],
{
    let cs = chars_of(s.as_str());
    let mut b: usize = cs.len();
    assert(cs@.subrange(0, cs.len() as int) =~= cs@);
    while b > 0 && cs[b - 1] == '\n'
        invariant
            b <= cs.len(),
            cs@ == s@,
            trim_end_newlines(s@) == trim_end_newlines(cs@.subrange(0, b as int)),
        decreases b,
    {
        assert(cs@.subrange(0, b as int).drop_last() =~= cs@.subrange(0, b - 1));
        b = b - 1;
    }
    let mut r = String::new();
    let mut i: usize = 0;
    while i < b
        invariant
            i <= b,
            b <= cs.len(),
            r@ == cs@.subrange(0, i as int),
        decreases b - i,
    {
        push_char(&mut r, cs[i]);
        i = i + 1;
        assert(cs@.subrange(0, i as int) =~= cs@.subrange(0, i - 1).push(cs@[i - 1]));
    }
    proof {
        let t = cs@.subrange(0, b as int);
        if t.len() > 0 {
            assert(t.last() == cs@[b - 1]);
        }
    }
    push_char(&mut r, '\n');
    r
}

/// A copy of a vector of strings.
pub fn clone_strings(v: &Vec<String>) -> (r: Vec<String>)
    ensures
        views(r@) == views(v@),
{
    let mut r: Vec<String> = Vec::new();
    let mut i: usize = 0;
    while i < v.len()
        invariant
            i <= v.len(),
            views(r@) == views(v@.take(i as int)),
        decreases v.len() - i,
    {
        let ghost old_r = views(r@);
        r.push(v[i].clone());
        assert(views(r@) =~= old_r.push(v@[i as int]@));
        assert(views(v@.take(i + 1)) =~= views(v@.take(i as int)).push(v@[i as int]@));
        i = i + 1;
    }
    assert(v@.take(v.len() as int) =~= v@);
    r
}

/// Sorts and de-duplicates owned strings (`BTreeSet<String>` iteration order).
pub fn sort_dedup_strings(v: Vec<String>) -> (r: Vec<String>)
    ensures
        views(r@) == sorted_distinct(views(v@)),
{
    let sorted = sort_strings(v);
    let mut r: Vec<String> = Vec::new();
    let mut i: usize = 0;
    while i < sorted.len()
        invariant
            i <= sorted.len(),
            views(r@) == dedup(views(sorted@).take(i as int)),
        decreases sorted.len() - i,
    {
        let x = sorted[i].clone();
        let ghost t = views(sorted@).take(i + 1);
        assert(t.drop_last() =~= views(sorted@).take(i as int));
        assert(t.last() == x@);
        if r.len() == 0 {
            r.push(x);
            assert(views(r@) =~= dedup(t));
        } else {
            let last_eq = str_eq(r[r.len() - 1].as_str(), x.as_str());
            assert(views(r@).last() == r@[r.len() - 1]@);
            if !last_eq {
                r.push(x);
                assert(views(r@) =~= dedup(t));
            }
        }
        i = i + 1;
    }
    assert(views(sorted@).take(sorted.len() as int) =~= views(sorted@));
    r
}

/// Sorts owned strings lexicographically (`slice::sort` on `String`s).
pub fn sort_strings(v: Vec<String>) -> (r: Vec<String>)
    ensures
        views(r@) == views(v@).sort_by(lex()),
{
    let mut r: Vec<String> = Vec::new();
    let mut i: usize = 0;
    proof {
        lemma_lex_total_ordering();
        assert(views(v@.take(0)) =~= Seq::<Seq<char>>::empty());
        assert(views(r@) =~= Seq::<Seq<char>>::empty());
    }
    while i < v.len()
        invariant
            i <= v.len(),
            total_ordering(lex()),
            sorted_by(views(r@), lex()),
            views(r@).to_multiset() == views(v@.take(i as int)).to_multiset(),
        decreases v.len() - i,
    {
        let x = v[i].clone();
        // find insertion point: first index whose element is not <= x
        let mut k: usize = 0;
        while k < r.len() && str_le(r[k].as_str(), x.as_str())
            invariant
                k <= r.len(),
                forall|j: int| 0 <= j < k ==> seq_le(#[trigger] r@[j]@, x@),
            decreases r.len() - k,
        {
            k = k + 1;
        }
        let ghost old_views = views(r@);
        r.insert(k, x);
        proof {
            assert(views(r@) =~= old_views.insert(k as int, x@));
            vstd::seq_lib::to_multiset_insert(old_views, k as int, x@);
            assert(views(v@.take(i + 1)) =~= views(v@.take(i as int)).push(v@[i as int]@));
            broadcast use vstd::seq_lib::group_to_multiset_ensures;
            assert(views(v@.take(i + 1)).to_multiset() =~= views(v@.take(i as int)).to_multiset().insert(
                v@[i as int]@,
            ));
            // sortedness
            assert forall|a: int, b: int| 0 <= a < b < views(r@).len() implies #[trigger] lex()(
                views(r@)[a],
                views(r@)[b],
            ) by {
                let vr = views(r@);
                if b < k {
                    assert(vr[a] == old_views[a] && vr[b] == old_views[b]);
                } else if b == k {
                    assert(vr[a] == old_views[a]);
                } else if a == k {
                    // x <= old_views[b-1]: either k == old len (impossible since b > k) or
                    // old_views[k] is not <= x, so x < old_views[k] <= old_views[b-1]
                    assert(vr[b] == old_views[b - 1]);
                    assert(!seq_le(old_views[k as int], x@));
                    lemma_le_total(old_views[k as int], x@);
                    if b - 1 > k {
                        assert(lex()(old_views[k as int], old_views[b - 1]));
                        lemma_le_trans(x@, old_views[k as int], old_views[b - 1]);
                    }
                } else if a < k {
                    assert(vr[a] == old_views[a]);
                    assert(vr[b] == old_views[b - 1]);
                    if a < b - 1 {
                        assert(lex()(old_views[a], old_views[b - 1]));
                    }
                } else {
                    assert(vr[a] == old_views[a - 1]);
                    assert(vr[b] == old_views[b - 1]);
                    assert(lex()(old_views[a - 1], old_views[b - 1]));
                }
            }
        }
        i = i + 1;
    }
    proof {
        assert(v@.take(v.len() as int) =~= v@);
        views(v@).lemma_sort_by_ensures(lex());
        vstd::seq_lib::lemma_sorted_unique(views(r@), views(v@).sort_by(lex()), lex());
    }
    r
}

/// `line` without one trailing carriage return.
pub open spec fn strip_cr(line: Seq<char>) -> Seq<char> {
    if line.len() > 0 && line.last() == '\r' {
        line.drop_last()
    } else {
        line
    }
}

/// The lines of `cur + s` as `str::lines` yields them: split at `\n`, a
/// `\r` before a `\n` dropped, no empty line after a final `\n`.
pub open spec fn lines_from(s: Seq<char>, cur: Seq<char>) -> Seq<Seq<char>>
    decreases s.len(),
{
    if s.len() == 0 {
        if cur.len() == 0 {
            seq![]
        } else {
            seq![cur]
        }
    } else if s[0] == '\n' {
        seq![strip_cr(cur)] + lines_from(s.drop_first(), seq![])
    } else {
        lines_from(s.drop_first(), cur.push(s[0]))
    }
}

pub open spec fn str_lines(s: Seq<char>) -> Seq<Seq<char>> {
    lines_from(s, seq![])
}

fn chars_to_owned(cs: &Vec<char>) -> (r: String)
    ensures
        r@ == cs@,
{
    let mut out = String::new();
    let mut i: usize = 0;
    while i < cs.len()
        invariant
            i <= cs@.len(),
            out@ == cs@.take(i as int),
        decreases cs@.len() - i,
    {
        push_char(&mut out, cs[i]);
        assert(cs@.take(i + 1) =~= cs@.take(i as int).push(cs@[i as int]));
        i = i + 1;
    }
    assert(cs@.take(cs@.len() as int) =~= cs@);
    out
}

/// `s.lines()`, collected.
pub fn split_lines(s: &str) -> (r: Vec<String>)
    ensures
        views(r@) == str_lines(s@),
{
    let cs = chars_of(s);
    let mut out: Vec<String> = Vec::new();
    let mut cur: Vec<char> = Vec::new();
    let mut i: usize = 0;
    assert(cs@.subrange(0, cs@.len() as int) =~= cs@);
    assert(cur@ =~= Seq::<char>::empty());
    assert(views(out@) =~= Seq::<Seq<char>>::empty());
    assert(str_lines(s@) =~= views(out@) + lines_from(cs@, cur@));
    while i < cs.len()
        invariant
            i <= cs@.len(),
            cs@ == s@,
            str_lines(s@) == views(out@) + lines_from(cs@.subrange(i as int, cs@.len() as int), cur@),
        decreases cs@.len() - i,
    {
        let c = cs[i];
        let ghost rest = cs@.subrange(i as int, cs@.len() as int);
        assert(rest.drop_first() =~= cs@.subrange(i + 1, cs@.len() as int));
        assert(rest[0] == c);
        if c == '\n' {
            if cur.len() > 0 && cur[cur.len() - 1] == '\r' {
                cur.pop();
            }
            let line = chars_to_owned(&cur);
            let ghost before = views(out@);
            let ghost lv = line@;
            out.push(line);
            assert(views(out@) =~= before.push(lv));
            cur = Vec::new();
            assert(cur@ =~= Seq::<char>::empty());
            assert(str_lines(s@) =~= views(out@) + lines_from(cs@.subrange(i + 1, cs@.len() as int), cur@));
        } else {
            cur.push(c);
        }
        i = i + 1;
    }
    assert(cs@.subrange(i as int, cs@.len() as int) =~= Seq::<char>::empty());
    if cur.len() > 0 {
        let line = chars_to_owned(&cur);
        let ghost before = views(out@);
        let ghost lv = line@;
        out.push(line);
        assert(views(out@) =~= before.push(lv));
    } else {
        assert(views(out@) + Seq::<Seq<char>>::empty() =~= views(out@));
    }
    out
}


/// The decimal digit character for `d` (0 to 9).
pub open spec fn digit_char(d: int) -> char {
    if d == 0 {
        '0'
    } else if d == 1 {
        '1'
    } else if d == 2 {
        '2'
    } else if d == 3 {
        '3'
    } else if d == 4 {
        '4'
    } else if d == 5 {
        '5'
    } else if d == 6 {
        '6'
    } else if d == 7 {
        '7'
    } else if d == 8 {
        '8'
    } else {
        '9'
    }
}

/// The decimal rendering of `n` (`n.to_string()`).
pub open spec fn decimal(n: nat) -> Seq<char>
    decreases n,
{
    if n < 10 {
        seq![digit_char(n as int)]
    } else {
        decimal(n / 10).push(digit_char((n % 10) as int))
    }
}

fn digit_of(d: u32) -> (c: char)
    requires
        d < 10,
    ensures
        c == digit_char(d as int),
{
    if d == 0 {
        '0'
    } else if d == 1 {
        '1'
    } else if d == 2 {
        '2'
    } else if d == 3 {
        '3'
    } else if d == 4 {
        '4'
    } else if d == 5 {
        '5'
    } else if d == 6 {
        '6'
    } else if d == 7 {
        '7'
    } else if d == 8 {
        '8'
    } else {
        '9'
    }
}

/// `n.to_string()` for a `u32`.
pub fn u32_decimal(n: u32) -> (r: String)
    ensures
        r@ == decimal(n as nat),
    decreases n,
{
    if n < 10 {
        let mut r = String::new();
        push_char(&mut r, digit_of(n));
        assert(r@ =~= seq![digit_char(n as int)]);
        r
    } else {
        let mut r = u32_decimal(n / 10);
        push_char(&mut r, digit_of(n % 10));
        r
    }
}


/// `n.to_string()` for a `usize`.
pub fn usize_decimal(n: usize) -> (r: String)
    ensures
        r@ == decimal(n as nat),
    decreases n,
{
    if n < 10 {
        let mut r = String::new();
        push_char(&mut r, digit_of(n as u32));
        assert(r@ =~= seq![digit_char(n as int)]);
        r
    } else {
        let mut r = usize_decimal(n / 10);
        push_char(&mut r, digit_of((n % 10) as u32));
        r
    }
}

/// Index of the first occurrence of `sep` in `s` at or after `from`, or -1.
pub open spec fn find_from(s: Seq<char>, sep: Seq<char>, from: int) -> int
    decreases s.len() - from,
{
    if from < 0 || from + sep.len() > s.len() {
        -1
    } else if sep.len() == 0 || s.subrange(from, from + sep.len()) == sep {
        from
    } else {
        find_from(s, sep, from + 1)
    }
}

/// `str::find`: the first occurrence of `sep`, or -1.
pub open spec fn find_first(s: Seq<char>, sep: Seq<char>) -> int {
    find_from(s, sep, 0)
}

/// The first occurrence of `sep` in `s` at or after `from`.
pub fn find_chars(s: &Vec<char>, sep: &Vec<char>, from: usize) -> (r: Option<usize>)
    requires
        sep@.len() > 0,
    ensures
        match r {
            Some(j) => j as int == find_from(s@, sep@, from as int) && from <= j && j + sep@.len() <= s@.len()
                && s@.subrange(j as int, j + sep@.len()) == sep@,
            None => find_from(s@, sep@, from as int) == -1,
        },
{
    let mut i = from;
    while i <= s.len() && sep.len() <= s.len() - i
        invariant
            from <= i,
            sep@.len() > 0,
            find_from(s@, sep@, from as int) == find_from(s@, sep@, i as int),
        decreases s.len() + 1 - i,
    {
        if matches_at(s, sep, i) {
            return Some(i);
        }
        i = i + 1;
    }
    None
}

/// `s.split(sep)` for a non-empty separator.
pub open spec fn split_on(s: Seq<char>, sep: Seq<char>) -> Seq<Seq<char>>
    decreases s.len(),
{
    let j = find_first(s, sep);
    if sep.len() == 0 || j < 0 || j + sep.len() > s.len() {
        seq![s]
    } else {
        seq![s.take(j)] + split_on(s.skip(j + sep.len()), sep)
    }
}

fn sub_chars(v: &Vec<char>, a: usize, b: usize) -> (r: Vec<char>)
    requires
        a <= b <= v.len(),
    ensures
        r@ == v@.subrange(a as int, b as int),
{
    let mut r: Vec<char> = Vec::new();
    let mut i = a;
    while i < b
        invariant
            a <= i <= b <= v.len(),
            r@ == v@.subrange(a as int, i as int),
        decreases b - i,
    {
        r.push(v[i]);
        i = i + 1;
        assert(r@ =~= v@.subrange(a as int, i as int));
    }
    r
}

fn string_of(v: &Vec<char>) -> (r: String)
    ensures
        r@ == v@,
{
    let mut r = String::new();
    push_all(&mut r, v, 0);
    assert(v@.subrange(0, v.len() as int) =~= v@);
    r
}

/// `s.split(sep)`, collected; `sep` must not be empty.
pub fn split_str(s: &str, sep: &str) -> (r: Vec<String>)
    requires
        sep@.len() > 0,
    ensures
        views(r@) == split_on(s@, sep@),
{
    let sc = chars_of(sep);
    let mut rest = chars_of(s);
    let mut out: Vec<String> = Vec::new();
    assert(views(out@) + split_on(rest@, sc@) =~= split_on(s@, sep@));
    loop
        invariant
            sc@ == sep@,
            sc@.len() > 0,
            views(out@) + split_on(rest@, sc@) == split_on(s@, sep@),
        decreases rest@.len(),
    {
        let found = find_chars(&rest, &sc, 0);
        match found {
            Some(j) => {
                let n = rest.len();
                assert(j + sc@.len() <= n);
                let head = sub_chars(&rest, 0, j);
                let tail = sub_chars(&rest, j + sc.len(), n);
                let piece = string_of(&head);
                let ghost before = views(out@);
                let ghost old_rest = rest@;
                out.push(piece);
                rest = tail;
                assert(old_rest.take(j as int) =~= head@);
                assert(old_rest.skip(j + sc@.len()) =~= rest@);
                assert(views(out@) =~= before.push(head@));
                assert(split_on(old_rest, sc@) == seq![head@] + split_on(rest@, sc@));
                assert(views(out@) + split_on(rest@, sc@) =~= before + split_on(old_rest, sc@));
            },
            None => {
                let piece = string_of(&rest);
                let ghost before = views(out@);
                out.push(piece);
                assert(views(out@) =~= before + split_on(rest@, sc@));
                return out;
            },
        }
    }
}


/// Whether `s` is one of the strings of `v`.
pub fn contains_str(v: &Vec<String>, s: &str) -> (r: bool)
    ensures
        r == views(v@).contains(s@),
{
    let mut i: usize = 0;
    while i < v.len()
        invariant
            i <= v.len(),
            forall|j: int| 0 <= j < i ==> v@[j]@ != s@,
        decreases v.len() - i,
    {
        if str_eq(v[i].as_str(), s) {
            assert(views(v@)[i as int] == s@);
            return true;
        }
        i = i + 1;
    }
    assert forall|j: int| 0 <= j < views(v@).len() implies views(v@)[j] != s@ by {
        assert(views(v@)[j] == v@[j]@);
    }
    false
}

} // verus!
