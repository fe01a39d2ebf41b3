//! Index of the public functions and HTTP routes of a project.
use vstd::prelude::*;
use vstd::string::*;
use crate::error::BlastError;
use crate::matching::{captures_iter_groups, group_at, group_view, group_views, regex_compiles, regex_groups, take_group};
use crate::text::{dedup, lemma_le_antisym, lemma_le_total, lemma_le_trans, lemma_lex_total_ordering, lex, seq_le, str_le};
use crate::text::{
    chars_of, find_chars, find_first, is_ws, join, join_strings, owned, push_char, seq_contains, seq_starts_with,
    sort_dedup_strings, sorted_distinct, split_on, split_str, str_contains, str_eq, str_starts_with,
    str_to_uppercase, trim, trim_seq, unicode_upper_str, upper_seq, all_ascii, views, clone_strings,
};

verus! {

/// One public function found in a scanned layer.
pub struct Entry {
    pub module: String,
    pub name: String,
    pub fqn: String,
    pub signature: String,
    pub doc: String,
    pub side_effects: Vec<String>,
    pub origin: String,
    pub path: String,
    pub line: usize,
}

/// An entry's fields as sequences.
pub struct EntryView {
    pub module: Seq<char>,
    pub name: Seq<char>,
    pub fqn: Seq<char>,
    pub signature: Seq<char>,
    pub doc: Seq<char>,
    pub side_effects: Seq<Seq<char>>,
    pub origin: Seq<char>,
    pub path: Seq<char>,
    pub line: nat,
}

impl View for Entry {
    type V = EntryView;

    open spec fn view(&self) -> EntryView {
        EntryView {
            module: self.module@,
            name: self.name@,
            fqn: self.fqn@,
            signature: self.signature@,
            doc: self.doc@,
            side_effects: views(self.side_effects@),
            origin: self.origin@,
            path: self.path@,
            line: self.line as nat,
        }
    }
}

/// A function item of a source file, as the parser reports it.
pub struct FnItem {
    pub name: String,
    /// The signature's token text.
    pub signature_tokens: String,
    /// The values of its doc attributes, in order.
    pub docs: Vec<String>,
    pub is_pub: bool,
}

/// One HTTP route found in the transport/routes layers.
pub struct RouteEntry {
    pub method: String,
    pub path: String,
    pub flow: String,
    pub source: String,
}

/// The scan result: entries per layer (in layer-name order) and routes.
pub struct ArsenalReport {
    pub generated_at: String,
    pub layers: Vec<(String, Vec<Entry>)>,
    pub routes: Vec<RouteEntry>,
}


/// The source layers that are scanned, in scan order.
pub open spec fn scanned_layers_spec() -> Seq<Seq<char>> {
    seq!["services"@, "routines"@, "models"@, "flows"@, "transport"@, "routes"@]
}

/// The source layers that are scanned, in scan order.
pub fn scanned_layers() -> (r: Vec<String>)
    ensures
        views(r@) == scanned_layers_spec(),
{
    let r = vec![
        owned("services"),
        owned("routines"),
        owned("models"),
        owned("flows"),
        owned("transport"),
        owned("routes"),
    ];
    assert(views(r@) =~= scanned_layers_spec());
    r
}

/// The module label shown for an entry: the module path without its layer
/// prefix and without its last segment (the file's own module).
pub open spec fn module_label_spec(layer: Seq<char>, mod_path: Seq<char>) -> Seq<char> {
    let prefix = layer + "::"@;
    let trimmed = if seq_starts_with(mod_path, prefix) {
        mod_path.skip(prefix.len() as int)
    } else {
        mod_path
    };
    if trimmed == layer || trimmed.len() == 0 {
        layer
    } else if split_on(trimmed, "::"@).len() <= 1 {
        trimmed
    } else {
        join(split_on(trimmed, "::"@).drop_last(), "::"@)
    }
}

/// See `module_label_spec`.
pub fn module_path_label(layer: &str, mod_path: &str) -> (r: String)
    ensures
        r@ == module_label_spec(layer@, mod_path@),
{
    let mut prefix = owned(layer);
    prefix.append("::");
    let trimmed = if str_starts_with(mod_path, prefix.as_str()) {
        let cs = chars_of(mod_path);
        let mut t = String::new();
        crate::text::push_all(&mut t, &cs, prefix.as_str().unicode_len());
        assert(t@ =~= mod_path@.skip(prefix@.len() as int));
        t
    } else {
        owned(mod_path)
    };
    if str_eq(trimmed.as_str(), layer) || trimmed.as_str().unicode_len() == 0 {
        return owned(layer);
    }
    proof {
        reveal_strlit("::");
    }
    let mut pieces = split_str(trimmed.as_str(), "::");
    if pieces.len() <= 1 {
        return trimmed;
    }
    let ghost all = views(pieces@);
    pieces.pop();
    assert(views(pieces@) =~= all.drop_last());
    join_strings(&pieces, "::")
}

/// Each maximal run of whitespace replaced by one space (`prev_space`:
/// whether the text before `s` ended in such a run).
pub open spec fn collapse_from(s: Seq<char>, prev_space: bool) -> Seq<char>
    decreases s.len(),
{
    if s.len() == 0 {
        seq![]
    } else if is_ws(s[0]) {
        if prev_space {
            collapse_from(s.drop_first(), true)
        } else {
            seq![' '] + collapse_from(s.drop_first(), true)
        }
    } else {
        seq![s[0]] + collapse_from(s.drop_first(), false)
    }
}

/// Whitespace runs collapsed to single spaces, then trimmed.
pub open spec fn collapse_ws_spec(s: Seq<char>) -> Seq<char> {
    trim_seq(collapse_from(s, false))
}

/// See `collapse_ws_spec`.
pub fn collapse_whitespace(s: &str) -> (r: String)
    ensures
        r@ == collapse_ws_spec(s@),
{
    let cs = chars_of(s);
    let mut out = String::new();
    let mut prev_space = false;
    let mut i: usize = 0;
    assert(cs@.skip(0) =~= cs@);
    while i < cs.len()
        invariant
            i <= cs.len(),
            cs@ == s@,
            out@ + collapse_from(cs@.skip(i as int), prev_space) == collapse_from(s@, false),
        decreases cs.len() - i,
    {
        let ch = cs[i];
        let ghost rest = cs@.skip(i as int);
        assert(rest.drop_first() =~= cs@.skip(i + 1));
        assert(rest[0] == ch);
        if crate::text::c_is_ws(ch) {
            if !prev_space {
                let ghost o = out@;
                push_char(&mut out, ' ');
                assert(out@ + collapse_from(cs@.skip(i + 1), true) =~= o + (seq![' '] + collapse_from(cs@.skip(i + 1), true)));
                prev_space = true;
            }
        } else {
            let ghost o = out@;
            push_char(&mut out, ch);
            assert(out@ + collapse_from(cs@.skip(i + 1), false) =~= o + (seq![ch] + collapse_from(cs@.skip(i + 1), false)));
            prev_space = false;
        }
        i = i + 1;
    }
    assert(cs@.skip(i as int).len() == 0);
    assert(out@ =~= collapse_from(s@, false));
    trim(out.as_str())
}

/// The leading run of non-empty lines (the first paragraph).
pub open spec fn para_run(t: Seq<Seq<char>>) -> Seq<Seq<char>>
    decreases t.len(),
{
    if t.len() == 0 || t[0].len() == 0 {
        seq![]
    } else {
        seq![t[0]] + para_run(t.drop_first())
    }
}

/// The first paragraph of trimmed lines: blank lines before it skipped,
/// the paragraph ending at the next blank line.
pub open spec fn first_para(t: Seq<Seq<char>>) -> Seq<Seq<char>>
    decreases t.len(),
{
    if t.len() == 0 {
        seq![]
    } else if t[0].len() == 0 {
        first_para(t.drop_first())
    } else {
        para_run(t)
    }
}

pub open spec fn trimmed_all(docs: Seq<Seq<char>>) -> Seq<Seq<char>> {
    docs.map_values(|d: Seq<char>| trim_seq(d))
}

/// The summary of a doc comment: its first paragraph, lines trimmed and
/// joined by single spaces; empty when there is none.
pub open spec fn doc_summary(docs: Seq<Seq<char>>) -> Seq<char> {
    join(first_para(trimmed_all(docs)), " "@)
}

proof fn lemma_first_para_step(t: Seq<Seq<char>>, i: int, cur: Seq<Seq<char>>)
    requires
        0 <= i < t.len(),
        cur.len() == 0 ==> first_para(t) == first_para(t.skip(i)),
        cur.len() > 0 ==> first_para(t) == cur + para_run(t.skip(i)),
    ensures
        t[i].len() == 0 && cur.len() > 0 ==> first_para(t) == cur,
        t[i].len() == 0 && cur.len() == 0 ==> first_para(t) == first_para(t.skip(i + 1)),
        t[i].len() > 0 ==> first_para(t) == cur.push(t[i]) + para_run(t.skip(i + 1)),
{
    let s = t.skip(i);
    assert(s.drop_first() =~= t.skip(i + 1));
    assert(s[0] == t[i]);
    if t[i].len() > 0 {
        assert(para_run(s) == seq![t[i]] + para_run(t.skip(i + 1)));
        if cur.len() == 0 {
            assert(first_para(s) == para_run(s));
        }
        assert(cur.push(t[i]) + para_run(t.skip(i + 1)) =~= cur + (seq![t[i]] + para_run(t.skip(i + 1))));
    } else {
        assert(para_run(s) =~= Seq::<Seq<char>>::empty());
    }
}

/// The first paragraph of the doc lines, trimmed and joined by spaces.
pub fn extract_doc(docs: &Vec<String>) -> (r: String)
    ensures
        r@ == doc_summary(views(docs@)),
{
    let ghost t = trimmed_all(views(docs@));
    let mut current: Vec<String> = Vec::new();
    let mut i: usize = 0;
    assert(t.skip(0) =~= t);
    while i < docs.len()
        invariant
            i <= docs.len(),
            t == trimmed_all(views(docs@)),
            views(current@).len() == 0 ==> first_para(t) == first_para(t.skip(i as int)),
            views(current@).len() > 0 ==> first_para(t) == views(current@) + para_run(t.skip(i as int)),
        decreases docs.len() - i,
    {
        let line = trim(docs[i].as_str());
        assert(line@ == t[i as int]);
        proof {
            lemma_first_para_step(t, i as int, views(current@));
        }
        if line.as_str().unicode_len() == 0 {
            if current.len() > 0 {
                return join_strings(&current, " ");
            }
        } else {
            let ghost before = views(current@);
            let ghost lv = line@;
            current.push(line);
            assert(views(current@) =~= before.push(lv));
        }
        i = i + 1;
    }
    proof {
        assert(t.skip(i as int).len() == 0);
        assert(para_run(t.skip(i as int)) =~= Seq::<Seq<char>>::empty());
        assert(views(current@) + para_run(t.skip(i as int)) =~= views(current@));
        if views(current@).len() == 0 {
            assert(first_para(t.skip(i as int)) =~= Seq::<Seq<char>>::empty());
        }
    }
    join_strings(&current, " ")
}

/// The side-effect classes of a file, read off the text of its `use` items
/// (as token text, with ` :: ` between path segments).
pub open spec fn effect_classes(use_text: Seq<char>) -> Seq<Seq<char>> {
    let db = seq_contains(use_text, "diesel"@);
    let net = seq_contains(use_text, "reqwest"@) || seq_contains(use_text, "hyper"@) || seq_contains(
        use_text,
        "tower :: client"@,
    );
    let io = seq_contains(use_text, "tokio :: fs"@) || seq_contains(use_text, "std :: fs"@);
    let found = (if db { seq!["db"@] } else { seq![] }) + (if net { seq!["net"@] } else { seq![] }) + (if io {
        seq!["io"@]
    } else {
        seq![]
    });
    if found.len() == 0 {
        seq!["pure"@]
    } else {
        found
    }
}

/// The side-effect classes (`db`, `io`, `net`, else `pure`), sorted, each once.
pub fn detect_side_effects(use_text: &str) -> (r: Vec<String>)
    ensures
        views(r@) == sorted_distinct(effect_classes(use_text@)),
{
    let mut classes: Vec<String> = Vec::new();
    let db = str_contains(use_text, "diesel");
    let net = str_contains(use_text, "reqwest") || str_contains(use_text, "hyper") || str_contains(
        use_text,
        "tower :: client",
    );
    let io = str_contains(use_text, "tokio :: fs") || str_contains(use_text, "std :: fs");
    if db {
        classes.push(owned("db"));
    }
    if net {
        classes.push(owned("net"));
    }
    if io {
        classes.push(owned("io"));
    }
    if classes.len() == 0 {
        classes.push(owned("pure"));
    }
    assert(views(classes@) =~= effect_classes(use_text@));
    sort_dedup_strings(classes)
}

/// The HTTP method for an axum routing function name.
pub open spec fn method_spec(verb: Seq<char>) -> Seq<char> {
    if verb == "get"@ {
        "GET"@
    } else if verb == "post"@ {
        "POST"@
    } else if verb == "put"@ {
        "PUT"@
    } else if verb == "delete"@ {
        "DELETE"@
    } else if verb == "patch"@ {
        "PATCH"@
    } else if verb == "head"@ {
        "HEAD"@
    } else if verb == "options"@ {
        "OPTIONS"@
    } else {
        unicode_upper_str(verb)
    }
}

/// The known verbs are their own ASCII upper-casing.
proof fn lemma_known_verbs_upper()
    ensures
        upper_seq("get"@) == "GET"@,
        upper_seq("post"@) == "POST"@,
        upper_seq("put"@) == "PUT"@,
        upper_seq("delete"@) == "DELETE"@,
        upper_seq("patch"@) == "PATCH"@,
        upper_seq("head"@) == "HEAD"@,
        upper_seq("options"@) == "OPTIONS"@,
{
    reveal_strlit("get");
    reveal_strlit("GET");
    reveal_strlit("post");
    reveal_strlit("POST");
    reveal_strlit("put");
    reveal_strlit("PUT");
    reveal_strlit("delete");
    reveal_strlit("DELETE");
    reveal_strlit("patch");
    reveal_strlit("PATCH");
    reveal_strlit("head");
    reveal_strlit("HEAD");
    reveal_strlit("options");
    reveal_strlit("OPTIONS");
    assert(upper_seq("get"@) =~= "GET"@);
    assert(upper_seq("post"@) =~= "POST"@);
    assert(upper_seq("put"@) =~= "PUT"@);
    assert(upper_seq("delete"@) =~= "DELETE"@);
    assert(upper_seq("patch"@) =~= "PATCH"@);
    assert(upper_seq("head"@) =~= "HEAD"@);
    assert(upper_seq("options"@) =~= "OPTIONS"@);
}

/// See `method_spec`; an ASCII verb comes out ASCII upper-cased.
pub fn method_from_verb(verb: &str) -> (r: String)
    ensures
        r@ == method_spec(verb@),
        all_ascii(verb@) ==> r@ == upper_seq(verb@),
{
    proof {
        lemma_known_verbs_upper();
    }
    if str_eq(verb, "get") {
        owned("GET")
    } else if str_eq(verb, "post") {
        owned("POST")
    } else if str_eq(verb, "put") {
        owned("PUT")
    } else if str_eq(verb, "delete") {
        owned("DELETE")
    } else if str_eq(verb, "patch") {
        owned("PATCH")
    } else if str_eq(verb, "head") {
        owned("HEAD")
    } else if str_eq(verb, "options") {
        owned("OPTIONS")
    } else {
        str_to_uppercase(verb)
    }
}


/// Start offsets (in characters) of the lines of `s`: 0, then one past
/// each newline.
pub open spec fn line_starts_of(s: Seq<char>) -> Seq<usize>
    decreases s.len(),
{
    if s.len() == 0 {
        seq![0usize]
    } else if s.last() == '\n' {
        line_starts_of(s.drop_last()).push(s.len() as usize)
    } else {
        line_starts_of(s.drop_last())
    }
}

/// How many of `starts` are at most `offset`.
pub open spec fn count_le(starts: Seq<usize>, offset: int) -> nat
    decreases starts.len(),
{
    if starts.len() == 0 {
        0
    } else {
        count_le(starts.drop_last(), offset) + (if starts.last() <= offset { 1nat } else { 0nat })
    }
}

/// The number of newlines in `s`.
pub open spec fn newline_count(s: Seq<char>) -> nat
    decreases s.len(),
{
    if s.len() == 0 {
        0
    } else {
        newline_count(s.drop_last()) + (if s.last() == '\n' { 1nat } else { 0nat })
    }
}

/// Line numbers of a source text, for reporting where functions are.
pub struct LineLookup {
    pub line_starts: Vec<usize>,
    pub content: String,
}

impl LineLookup {
    pub open spec fn wf(&self) -> bool {
        self.line_starts@ == line_starts_of(self.content@)
    }

    /// Indexes the line starts of `content`.
    pub fn new(content: &str) -> (r: Self)
        ensures
            r.wf(),
            r.content@ == content@,
    {
        let cs = chars_of(content);
        let mut starts: Vec<usize> = vec![0];
        let mut i: usize = 0;
        assert(cs@.take(0) =~= Seq::<char>::empty());
        assert(starts@ =~= line_starts_of(cs@.take(0)));
        while i < cs.len()
            invariant
                i <= cs.len(),
                cs@ == content@,
                starts@ == line_starts_of(cs@.take(i as int)),
            decreases cs.len() - i,
        {
            let ghost t = cs@.take(i + 1);
            assert(t.drop_last() =~= cs@.take(i as int));
            assert(t.last() == cs@[i as int]);
            if cs[i] == '\n' {
                starts.push(i + 1);
            }
            i = i + 1;
        }
        assert(cs@.take(i as int) =~= content@);
        LineLookup { line_starts: starts, content: owned(content) }
    }

    /// The 1-based line holding character offset `offset`.
    pub fn line_at(&self, offset: usize) -> (r: usize)
        requires
            self.wf(),
        ensures
            r == count_le(self.line_starts@, offset as int),
    {
        let mut line: usize = 0;
        let mut i: usize = 0;
        assert(self.line_starts@.take(0) =~= Seq::<usize>::empty());
        while i < self.line_starts.len()
            invariant
                i <= self.line_starts.len(),
                line == count_le(self.line_starts@.take(i as int), offset as int),
                line <= i,
            decreases self.line_starts.len() - i,
        {
            let ghost t = self.line_starts@.take(i + 1);
            assert(t.drop_last() =~= self.line_starts@.take(i as int));
            if self.line_starts[i] <= offset {
                line = line + 1;
            }
            i = i + 1;
        }
        assert(self.line_starts@.take(i as int) =~= self.line_starts@);
        line
    }

    /// The line of the first `fn <name>` in the text, or 0 when it is absent.
    pub fn line_of_ident(&self, name: &str) -> (r: usize)
        requires
            self.wf(),
        ensures
            r == (if find_first(self.content@, "fn "@ + name@) < 0 {
                0
            } else {
                count_le(self.line_starts@, find_first(self.content@, "fn "@ + name@)) as int
            }),
    {
        let mut needle = owned("fn ");
        needle.append(name);
        let hay = chars_of(self.content.as_str());
        let nc = chars_of(needle.as_str());
        proof {
            reveal_strlit("fn ");
        }
        match find_chars(&hay, &nc, 0) {
            Some(p) => self.line_at(p),
            None => 0,
        }
    }
}

proof fn lemma_count_le_push(s: Seq<usize>, x: usize, o: int)
    ensures
        count_le(s.push(x), o) == count_le(s, o) + (if x <= o { 1nat } else { 0nat }),
{
    assert(s.push(x).drop_last() =~= s);
}

/// A line number is one more than the newlines before the offset: for every
/// text and offset, the lines starting at or before it number
/// `1 + newlines in the text up to it`.
pub proof fn lemma_line_is_newlines_before(s: Seq<char>, o: int)
    requires
        0 <= o,
        s.len() <= usize::MAX,
    ensures
        count_le(line_starts_of(s), o) == 1 + newline_count(s.take(if o < s.len() { o } else { s.len() as int })),
    decreases s.len(),
{
    if s.len() == 0 {
        assert(s.take(0) =~= Seq::<char>::empty());
        assert(newline_count(s.take(0)) == 0);
        assert(line_starts_of(s) == seq![0usize]);
        assert(seq![0usize].drop_last() =~= Seq::<usize>::empty());
        assert(count_le(Seq::<usize>::empty(), o) == 0);
        assert(count_le(seq![0usize], o) == 1);
    } else {
        let d = s.drop_last();
        lemma_line_is_newlines_before(d, o);
        let n = s.len() as usize;
        assert(n as int == s.len());
        if s.last() == '\n' {
            lemma_count_le_push(line_starts_of(d), n, o);
            assert(line_starts_of(s) == line_starts_of(d).push(n));
        } else {
            assert(line_starts_of(s) == line_starts_of(d));
        }
        let extra: nat = if s.last() == '\n' && n as int <= o { 1nat } else { 0nat };
        assert(count_le(line_starts_of(s), o) == count_le(line_starts_of(d), o) + extra);
        if o < s.len() {
            assert(s.take(o) =~= d.take(o));
            assert(extra == 0);
            assert(count_le(line_starts_of(d), o) == 1 + newline_count(d.take(o)));
        } else {
            assert(s.take(s.len() as int) =~= s);
            assert(d.take(d.len() as int) =~= d);
            assert(count_le(line_starts_of(d), o) == 1 + newline_count(d));
            assert(newline_count(s) == newline_count(d) + (if s.last() == '\n' { 1nat } else { 0nat }));
        }
    }
}


/// Index of the last `.` in `name`, or -1.
pub open spec fn last_dot(name: Seq<char>) -> int
    decreases name.len(),
{
    if name.len() == 0 {
        -1
    } else if name.last() == '.' {
        name.len() - 1
    } else {
        last_dot(name.drop_last())
    }
}

/// `Path::file_stem` of a file name: the part before the last `.`, unless
/// that dot leads the name or there is none.
pub open spec fn file_stem_spec(name: Seq<char>) -> Seq<char> {
    if last_dot(name) <= 0 {
        name
    } else {
        name.take(last_dot(name))
    }
}

/// `Path::extension` of a file name.
pub open spec fn extension_spec(name: Seq<char>) -> Option<Seq<char>> {
    if last_dot(name) <= 0 {
        None
    } else {
        Some(name.skip(last_dot(name) + 1))
    }
}

fn last_dot_of(cs: &Vec<char>) -> (r: Option<usize>)
    ensures
        match r {
            Some(k) => k as int == last_dot(cs@) && k < cs@.len(),
            None => last_dot(cs@) == -1,
        },
{
    let mut i = cs.len();
    assert(cs@.take(i as int) =~= cs@);
    while i > 0
        invariant
            i <= cs.len(),
            last_dot(cs@) == last_dot(cs@.take(i as int)),
        decreases i,
    {
        let ghost t = cs@.take(i as int);
        assert(t.drop_last() =~= cs@.take(i - 1));
        if cs[i - 1] == '.' {
            return Some(i - 1);
        }
        i = i - 1;
    }
    None
}

/// Whether a file name's extension (`Path::extension`) is `ext`.
pub fn has_extension(file_name: &str, ext: &str) -> (r: bool)
    ensures
        r == (extension_spec(file_name@) == Some(ext@)),
{
    let cs = chars_of(file_name);
    let n = cs.len();
    match last_dot_of(&cs) {
        Some(k) => {
            if k == 0 {
                return false;
            }
            assert(k < n);
            let mut found = String::new();
            crate::text::push_all(&mut found, &cs, k + 1);
            assert(found@ =~= file_name@.skip(k + 1));
            str_eq(found.as_str(), ext)
        },
        None => false,
    }
}

/// Whether a file name has the `rs` extension.
pub fn is_rust_file(file_name: &str) -> (r: bool)
    ensures
        r == (extension_spec(file_name@) == Some("rs"@)),
{
    has_extension(file_name, "rs")
}

/// `Path::file_stem` of a file name.
pub fn file_stem_of(name: &str) -> (r: String)
    ensures
        r@ == file_stem_spec(name@),
{
    let cs = chars_of(name);
    match last_dot_of(&cs) {
        Some(k) => {
            if k == 0 {
                return owned(name);
            }
            let mut stem = String::new();
            let mut i: usize = 0;
            while i < k
                invariant
                    i <= k < cs.len(),
                    cs@ == name@,
                    stem@ == name@.take(i as int),
                decreases k - i,
            {
                push_char(&mut stem, cs[i]);
                i = i + 1;
                assert(stem@ =~= name@.take(i as int));
            }
            stem
        },
        None => owned(name),
    }
}

/// The non-empty strings of `v`, in order.
pub open spec fn non_empty(v: Seq<Seq<char>>) -> Seq<Seq<char>>
    decreases v.len(),
{
    if v.len() == 0 {
        seq![]
    } else if v.last().len() == 0 {
        non_empty(v.drop_last())
    } else {
        non_empty(v.drop_last()).push(v.last())
    }
}

/// A path has no file name when it is empty or ends in `.` or `..`.
pub open spec fn lacks_file_name(components: Seq<Seq<char>>) -> bool {
    components.len() == 0 || components.last() == "."@ || components.last() == ".."@
}

/// The Rust module path of a source file, from the components of its path
/// relative to `src/`: the directories, then the file stem unless it is
/// `mod`, joined by `::`.
pub open spec fn module_path_spec(components: Seq<Seq<char>>) -> Seq<char> {
    let stem = file_stem_spec(components.last());
    let dirs = non_empty(components.drop_last());
    join(if stem == "mod"@ { dirs } else { dirs.push(stem) }, "::"@)
}

/// See `module_path_spec`; an error when the path has no file name.
pub fn derive_module_path(components: &Vec<String>, display: &str) -> (r: Result<String, BlastError>)
    ensures
        match r {
            Ok(p) => !lacks_file_name(views(components@)) && p@ == module_path_spec(views(components@)),
            Err(BlastError::Invalid(m)) => lacks_file_name(views(components@)) && m@ == "no file stem: "@ + display@,
            Err(_) => false,
        },
{
    let n = components.len();
    if n == 0 || str_eq(components[n - 1].as_str(), ".") || str_eq(components[n - 1].as_str(), "..") {
        let mut m = owned("no file stem: ");
        m.append(display);
        return Err(BlastError::Invalid(m));
    }
    let ghost cv = views(components@);
    let mut parts: Vec<String> = Vec::new();
    let mut i: usize = 0;
    assert(cv.drop_last().take(0) =~= Seq::<Seq<char>>::empty());
    while i < n - 1
        invariant
            n == components.len(),
            n > 0,
            i <= n - 1,
            cv == views(components@),
            views(parts@) == non_empty(cv.drop_last().take(i as int)),
        decreases n - 1 - i,
    {
        let ghost t = cv.drop_last().take(i + 1);
        assert(t.drop_last() =~= cv.drop_last().take(i as int));
        assert(t.last() == components@[i as int]@);
        if components[i].as_str().unicode_len() > 0 {
            let s = owned(components[i].as_str());
            let ghost before = views(parts@);
            let ghost sv = s@;
            parts.push(s);
            assert(views(parts@) =~= before.push(sv));
        }
        i = i + 1;
    }
    assert(cv.drop_last().take(i as int) =~= cv.drop_last());
    let stem = file_stem_of(components[n - 1].as_str());
    assert(cv.last() == components@[n - 1]@);
    if !str_eq(stem.as_str(), "mod") {
        let ghost before = views(parts@);
        let ghost sv = stem@;
        parts.push(stem);
        assert(views(parts@) =~= before.push(sv));
    }
    Ok(join_strings(&parts, "::"))
}

/// The line of a function's header in the source, 0 when not found.
pub open spec fn fn_line(content: Seq<char>, name: Seq<char>) -> nat {
    if find_first(content, "fn "@ + name) < 0 {
        0
    } else {
        count_le(line_starts_of(content), find_first(content, "fn "@ + name))
    }
}

/// "generated" for files under a `generated/` directory, else "custom".
pub open spec fn origin_spec(full_path: Seq<char>) -> Seq<char> {
    if seq_contains(full_path, "/generated/"@) {
        "generated"@
    } else {
        "custom"@
    }
}

/// The entry of one public function of a file.
pub open spec fn entry_of(
    layer: Seq<char>,
    mod_path: Seq<char>,
    full_path: Seq<char>,
    rel_path: Seq<char>,
    content: Seq<char>,
    use_text: Seq<char>,
    f: FnItemView,
) -> EntryView {
    EntryView {
        module: module_label_spec(layer, mod_path),
        name: f.0,
        fqn: mod_path + "::"@ + f.0,
        signature: collapse_ws_spec(f.1),
        doc: doc_summary(f.2),
        side_effects: sorted_distinct(effect_classes(use_text)),
        origin: origin_spec(full_path),
        path: rel_path,
        line: fn_line(content, f.0),
    }
}

/// (name, signature tokens, doc values, is public) of a function item.
pub type FnItemView = (Seq<char>, Seq<char>, Seq<Seq<char>>, bool);

pub open spec fn fn_item_view(f: FnItem) -> FnItemView {
    (f.name@, f.signature_tokens@, views(f.docs@), f.is_pub)
}

pub open spec fn fn_item_views(fs: Seq<FnItem>) -> Seq<FnItemView> {
    fs.map_values(|f: FnItem| fn_item_view(f))
}

/// The entries of a file: one per public function, in source order.
pub open spec fn file_entries_spec(
    layer: Seq<char>,
    mod_path: Seq<char>,
    full_path: Seq<char>,
    rel_path: Seq<char>,
    content: Seq<char>,
    use_text: Seq<char>,
    fns: Seq<FnItemView>,
) -> Seq<EntryView>
    decreases fns.len(),
{
    if fns.len() == 0 {
        seq![]
    } else {
        let rest = file_entries_spec(layer, mod_path, full_path, rel_path, content, use_text, fns.drop_last());
        if fns.last().3 {
            rest.push(entry_of(layer, mod_path, full_path, rel_path, content, use_text, fns.last()))
        } else {
            rest
        }
    }
}

pub open spec fn entry_views(v: Seq<Entry>) -> Seq<EntryView> {
    v.map_values(|e: Entry| e@)
}

/// The index entries of one source file. `mod_path` is its module path,
/// `full_path` its path as found, `rel_path` its path under `src/`,
/// `use_text` the token text of its `use` items, one per line.
pub fn file_entries(
    layer: &str,
    mod_path: &str,
    full_path: &str,
    rel_path: &str,
    content: &str,
    use_text: &str,
    fns: &Vec<FnItem>,
) -> (r: Vec<Entry>)
    ensures
        entry_views(r@) == file_entries_spec(layer@, mod_path@, full_path@, rel_path@, content@, use_text@, fn_item_views(fns@)),
{
    let label = module_path_label(layer, mod_path);
    let effects = detect_side_effects(use_text);
    let origin = if str_contains(full_path, "/generated/") {
        owned("generated")
    } else {
        owned("custom")
    };
    let lookup = LineLookup::new(content);
    let mut out: Vec<Entry> = Vec::new();
    let mut i: usize = 0;
    assert(fn_item_views(fns@).take(0) =~= Seq::<FnItemView>::empty());
    while i < fns.len()
        invariant
            i <= fns.len(),
            lookup.wf(),
            lookup.content@ == content@,
            label@ == module_label_spec(layer@, mod_path@),
            views(effects@) == sorted_distinct(effect_classes(use_text@)),
            origin@ == origin_spec(full_path@),
            entry_views(out@) == file_entries_spec(
                layer@,
                mod_path@,
                full_path@,
                rel_path@,
                content@,
                use_text@,
                fn_item_views(fns@).take(i as int),
            ),
        decreases fns.len() - i,
    {
        let ghost t = fn_item_views(fns@).take(i + 1);
        assert(t.drop_last() =~= fn_item_views(fns@).take(i as int));
        assert(t.last() == fn_item_view(fns@[i as int]));
        let f = &fns[i];
        if f.is_pub {
            let mut fqn = owned(mod_path);
            fqn.append("::");
            fqn.append(f.name.as_str());
            let line = lookup.line_of_ident(f.name.as_str());
            let e = Entry {
                module: owned(label.as_str()),
                name: owned(f.name.as_str()),
                fqn,
                signature: collapse_whitespace(f.signature_tokens.as_str()),
                doc: extract_doc(&f.docs),
                side_effects: clone_strings(&effects),
                origin: owned(origin.as_str()),
                path: owned(rel_path),
                line,
            };
            assert(e@ == entry_of(layer@, mod_path@, full_path@, rel_path@, content@, use_text@, fn_item_view(*f)));
            let ghost before = entry_views(out@);
            out.push(e);
            assert(entry_views(out@) =~= before.push(e@));
        }
        i = i + 1;
    }
    assert(fn_item_views(fns@).take(i as int) =~= fn_item_views(fns@));
    out
}


/// `e` placed after the last entry whose fqn is not greater (stable).
pub open spec fn insert_by_fqn(s: Seq<Entry>, x: Entry) -> Seq<Entry>
    decreases s.len(),
{
    if s.len() == 0 {
        seq![x]
    } else if seq_le(s.last().fqn@, x.fqn@) {
        s.push(x)
    } else {
        insert_by_fqn(s.drop_last(), x).push(s.last())
    }
}

/// Entries sorted by fully qualified name, equal names in input order.
pub open spec fn sort_by_fqn(s: Seq<Entry>) -> Seq<Entry>
    decreases s.len(),
{
    if s.len() == 0 {
        seq![]
    } else {
        insert_by_fqn(sort_by_fqn(s.drop_last()), s.last())
    }
}

proof fn lemma_insert_fqn_at(s: Seq<Entry>, x: Entry, k: int)
    requires
        0 <= k <= s.len(),
        forall|j: int| k <= j < s.len() ==> !seq_le(#[trigger] s[j].fqn@, x.fqn@),
        k > 0 ==> seq_le(s[k - 1].fqn@, x.fqn@),
    ensures
        insert_by_fqn(s, x) == s.insert(k, x),
    decreases s.len(),
{
    if s.len() == 0 {
        assert(s.insert(k, x) =~= seq![x]);
    } else if k == s.len() {
        assert(s.insert(k, x) =~= s.push(x));
    } else {
        lemma_insert_fqn_at(s.drop_last(), x, k);
        assert(s.insert(k, x) =~= s.drop_last().insert(k, x).push(s.last()));
    }
}

/// Sorts entries by fully qualified name (stable).
pub fn sort_entries_by_fqn(entries: Vec<Entry>) -> (r: Vec<Entry>)
    ensures
        r@ == sort_by_fqn(entries@),
{
    let ghost src = entries@;
    let mut rest = entries;
    let mut out: Vec<Entry> = Vec::new();
    let ghost mut k: int = 0;
    assert(src.take(0) =~= Seq::<Entry>::empty());
    assert(rest@ =~= src.skip(0));
    while rest.len() > 0
        invariant
            0 <= k <= src.len(),
            rest@ == src.skip(k),
            out@ == sort_by_fqn(src.take(k)),
        decreases rest@.len(),
    {
        let x = rest.remove(0);
        assert(src.take(k + 1).drop_last() =~= src.take(k));
        assert(src.take(k + 1).last() == src[k]);
        let mut j: usize = out.len();
        while j > 0 && !str_le(out[j - 1].fqn.as_str(), x.fqn.as_str())
            invariant
                j <= out@.len(),
                forall|m: int| j <= m < out@.len() ==> !seq_le(#[trigger] out@[m].fqn@, x.fqn@),
            decreases j,
        {
            j = j - 1;
        }
        proof {
            lemma_insert_fqn_at(out@, x, j as int);
        }
        out.insert(j, x);
        proof {
            assert(rest@ =~= src.skip(k + 1));
            k = k + 1;
        }
    }
    assert(src.take(k) =~= src);
    out
}

/// The axum routing pattern: `.route("<path>", <verb>(<handler>))`.
pub const ROUTE_PATTERN: &'static str = r#"\.route\s*\(\s*"([^"]+)"\s*,\s*([a-zA-Z_]+)\s*\(\s*([A-Za-z_:][A-Za-z0-9_:]*)\s*\)"#;

/// A route's fields as sequences.
pub struct RouteView {
    pub method: Seq<char>,
    pub path: Seq<char>,
    pub flow: Seq<char>,
    pub source: Seq<char>,
}

impl View for RouteEntry {
    type V = RouteView;

    open spec fn view(&self) -> RouteView {
        RouteView { method: self.method@, path: self.path@, flow: self.flow@, source: self.source@ }
    }
}

pub open spec fn route_views(v: Seq<RouteEntry>) -> Seq<RouteView> {
    v.map_values(|r: RouteEntry| r@)
}

/// The routes of the matches whose three groups all took part, in match
/// order.
pub open spec fn routes_from_groups(gs: Seq<Seq<Option<Seq<char>>>>, source: Seq<char>) -> Seq<RouteView>
    decreases gs.len(),
{
    if gs.len() == 0 {
        seq![]
    } else {
        let rest = routes_from_groups(gs.drop_last(), source);
        let g = gs.last();
        match (group_at(g, 0), group_at(g, 1), group_at(g, 2)) {
            (Some(p), Some(v), Some(f)) => rest.push(RouteView { method: method_spec(v), path: p, flow: f, source }),
            _ => rest,
        }
    }
}

/// The routes that `.route(...)` calls in one file declare; `source` is the
/// file's path under `src/`.
pub fn routes_in_file(content: &str, source: &str) -> (r: Result<Vec<RouteEntry>, BlastError>)
    ensures
        match r {
            Ok(v) => route_views(v@) == routes_from_groups(regex_groups(ROUTE_PATTERN@, content@, 3), source@),
            Err(e) => e is Pattern,
        },
        r is Ok <==> regex_compiles(ROUTE_PATTERN@),
{
    let groups = match captures_iter_groups(ROUTE_PATTERN, content, 3) {
        Some(g) => g,
        None => {
            return Err(BlastError::Pattern);
        },
    };
    let ghost src = groups@;
    let ghost gv = group_views(src);
    let mut rest = groups;
    let mut out: Vec<RouteEntry> = Vec::new();
    let ghost mut k: int = 0;
    assert(rest@ =~= src.skip(0));
    assert(gv.take(0) =~= Seq::<Seq<Option<Seq<char>>>>::empty());
    while rest.len() > 0
        invariant
            0 <= k <= src.len(),
            gv == group_views(src),
            rest@ == src.skip(k),
            route_views(out@) == routes_from_groups(gv.take(k), source@),
        decreases rest@.len(),
    {
        let mut g = rest.remove(0);
        assert(g == src[k]);
        let ghost one = g@.map_values(|o: Option<String>| group_view(o));
        assert(one == gv[k]);
        let ghost t = gv.take(k + 1);
        assert(t.drop_last() =~= gv.take(k));
        assert(t.last() == one);
        let p = take_group(&mut g, 0);
        let v = take_group(&mut g, 1);
        let f = take_group(&mut g, 2);
        match (p, v, f) {
            (Some(p), Some(v), Some(f)) => {
                let method = method_from_verb(v.as_str());
                let e = RouteEntry { method, path: p, flow: f, source: owned(source) };
                let ghost before = route_views(out@);
                out.push(e);
                assert(route_views(out@) =~= before.push(e@));
            },
            _ => {},
        }
        proof {
            assert(rest@ =~= src.skip(k + 1));
            k = k + 1;
        }
    }
    assert(gv.take(k) =~= gv);
    Ok(out)
}

pub open spec fn seq_lt(a: Seq<char>, b: Seq<char>) -> bool {
    seq_le(a, b) && a != b
}

/// The route order: by path, then method, then flow.
pub open spec fn route_le(a: RouteEntry, b: RouteEntry) -> bool {
    seq_lt(a.path@, b.path@) || (a.path@ == b.path@ && (seq_lt(a.method@, b.method@) || (a.method@ == b.method@
        && seq_le(a.flow@, b.flow@))))
}

fn route_le_exec(a: &RouteEntry, b: &RouteEntry) -> (r: bool)
    ensures
        r == route_le(*a, *b),
{
    let pe = str_eq(a.path.as_str(), b.path.as_str());
    if !pe {
        return str_le(a.path.as_str(), b.path.as_str());
    }
    let me = str_eq(a.method.as_str(), b.method.as_str());
    if !me {
        return str_le(a.method.as_str(), b.method.as_str());
    }
    str_le(a.flow.as_str(), b.flow.as_str())
}

pub open spec fn insert_route(s: Seq<RouteEntry>, x: RouteEntry) -> Seq<RouteEntry>
    decreases s.len(),
{
    if s.len() == 0 {
        seq![x]
    } else if route_le(s.last(), x) {
        s.push(x)
    } else {
        insert_route(s.drop_last(), x).push(s.last())
    }
}

/// Routes sorted by (path, method, flow), equal keys in input order.
pub open spec fn sort_routes_spec(s: Seq<RouteEntry>) -> Seq<RouteEntry>
    decreases s.len(),
{
    if s.len() == 0 {
        seq![]
    } else {
        insert_route(sort_routes_spec(s.drop_last()), s.last())
    }
}

proof fn lemma_insert_route_at(s: Seq<RouteEntry>, x: RouteEntry, k: int)
    requires
        0 <= k <= s.len(),
        forall|j: int| k <= j < s.len() ==> !route_le(#[trigger] s[j], x),
        k > 0 ==> route_le(s[k - 1], x),
    ensures
        insert_route(s, x) == s.insert(k, x),
    decreases s.len(),
{
    if s.len() == 0 {
        assert(s.insert(k, x) =~= seq![x]);
    } else if k == s.len() {
        assert(s.insert(k, x) =~= s.push(x));
    } else {
        lemma_insert_route_at(s.drop_last(), x, k);
        assert(s.insert(k, x) =~= s.drop_last().insert(k, x).push(s.last()));
    }
}

/// Sorts routes by (path, method, flow) (stable).
pub fn sort_routes(routes: Vec<RouteEntry>) -> (r: Vec<RouteEntry>)
    ensures
        r@ == sort_routes_spec(routes@),
{
    let ghost src = routes@;
    let mut rest = routes;
    let mut out: Vec<RouteEntry> = Vec::new();
    let ghost mut k: int = 0;
    assert(src.take(0) =~= Seq::<RouteEntry>::empty());
    assert(rest@ =~= src.skip(0));
    while rest.len() > 0
        invariant
            0 <= k <= src.len(),
            rest@ == src.skip(k),
            out@ == sort_routes_spec(src.take(k)),
        decreases rest@.len(),
    {
        let x = rest.remove(0);
        assert(src.take(k + 1).drop_last() =~= src.take(k));
        assert(src.take(k + 1).last() == src[k]);
        let mut j: usize = out.len();
        while j > 0 && !route_le_exec(&out[j - 1], &x)
            invariant
                j <= out@.len(),
                forall|m: int| j <= m < out@.len() ==> !route_le(#[trigger] out@[m], x),
            decreases j,
        {
            j = j - 1;
        }
        proof {
            lemma_insert_route_at(out@, x, j as int);
        }
        out.insert(j, x);
        proof {
            assert(rest@ =~= src.skip(k + 1));
            k = k + 1;
        }
    }
    assert(src.take(k) =~= src);
    out
}

/// The non-empty layers, in input order.
pub open spec fn non_empty_layers(s: Seq<(String, Vec<Entry>)>) -> Seq<(String, Vec<Entry>)>
    decreases s.len(),
{
    if s.len() == 0 {
        seq![]
    } else if s.last().1@.len() == 0 {
        non_empty_layers(s.drop_last())
    } else {
        non_empty_layers(s.drop_last()).push(s.last())
    }
}

pub open spec fn insert_layer(s: Seq<(String, Vec<Entry>)>, x: (String, Vec<Entry>)) -> Seq<(String, Vec<Entry>)>
    decreases s.len(),
{
    if s.len() == 0 {
        seq![x]
    } else if seq_le(s.last().0@, x.0@) {
        s.push(x)
    } else {
        insert_layer(s.drop_last(), x).push(s.last())
    }
}

/// Layers sorted by name, equal names in input order.
pub open spec fn sort_layers(s: Seq<(String, Vec<Entry>)>) -> Seq<(String, Vec<Entry>)>
    decreases s.len(),
{
    if s.len() == 0 {
        seq![]
    } else {
        insert_layer(sort_layers(s.drop_last()), s.last())
    }
}

proof fn lemma_insert_layer_at(s: Seq<(String, Vec<Entry>)>, x: (String, Vec<Entry>), k: int)
    requires
        0 <= k <= s.len(),
        forall|j: int| k <= j < s.len() ==> !seq_le(#[trigger] s[j].0@, x.0@),
        k > 0 ==> seq_le(s[k - 1].0@, x.0@),
    ensures
        insert_layer(s, x) == s.insert(k, x),
    decreases s.len(),
{
    if s.len() == 0 {
        assert(s.insert(k, x) =~= seq![x]);
    } else if k == s.len() {
        assert(s.insert(k, x) =~= s.push(x));
    } else {
        lemma_insert_layer_at(s.drop_last(), x, k);
        assert(s.insert(k, x) =~= s.drop_last().insert(k, x).push(s.last()));
    }
}

/// The report's layer table: the layers that found entries, by name (the
/// order of a map keyed by layer name).
pub fn collect_layers(found: Vec<(String, Vec<Entry>)>) -> (r: Vec<(String, Vec<Entry>)>)
    ensures
        r@ == sort_layers(non_empty_layers(found@)),
{
    let ghost src = found@;
    let mut rest = found;
    let mut kept: Vec<(String, Vec<Entry>)> = Vec::new();
    let ghost mut k: int = 0;
    assert(src.take(0) =~= Seq::<(String, Vec<Entry>)>::empty());
    assert(rest@ =~= src.skip(0));
    while rest.len() > 0
        invariant
            0 <= k <= src.len(),
            rest@ == src.skip(k),
            kept@ == sort_layers(non_empty_layers(src.take(k))),
        decreases rest@.len(),
    {
        let x = rest.remove(0);
        assert(src.take(k + 1).drop_last() =~= src.take(k));
        assert(src.take(k + 1).last() == src[k]);
        if x.1.len() > 0 {
            let mut j: usize = kept.len();
            while j > 0 && !str_le(kept[j - 1].0.as_str(), x.0.as_str())
                invariant
                    j <= kept@.len(),
                    forall|m: int| j <= m < kept@.len() ==> !seq_le(#[trigger] kept@[m].0@, x.0@),
                decreases j,
            {
                j = j - 1;
            }
            proof {
                lemma_insert_layer_at(kept@, x, j as int);
                let ne = non_empty_layers(src.take(k + 1));
                assert(ne == non_empty_layers(src.take(k)).push(x));
                assert(ne.drop_last() =~= non_empty_layers(src.take(k)));
                assert(sort_layers(ne) == insert_layer(sort_layers(non_empty_layers(src.take(k))), x));
            }
            kept.insert(j, x);
        } else {
            assert(non_empty_layers(src.take(k + 1)) == non_empty_layers(src.take(k)));
        }
        proof {
            assert(rest@ =~= src.skip(k + 1));
            k = k + 1;
        }
    }
    assert(src.take(k) =~= src);
    kept
}


proof fn lemma_insert_fqn_sorted(s: Seq<Entry>, x: Entry)
    requires
        forall|i: int, j: int| 0 <= i < j < s.len() ==> seq_le(#[trigger] s[i].fqn@, #[trigger] s[j].fqn@),
    ensures
        forall|i: int, j: int| 0 <= i < j < insert_by_fqn(s, x).len() ==> seq_le(
            #[trigger] insert_by_fqn(s, x)[i].fqn@,
            #[trigger] insert_by_fqn(s, x)[j].fqn@,
        ),
        insert_by_fqn(s, x).len() == s.len() + 1,
        forall|k: int| 0 <= k < insert_by_fqn(s, x).len() ==> (#[trigger] insert_by_fqn(s, x)[k] == x || s.contains(insert_by_fqn(s, x)[k])),
    decreases s.len(),
{
    if s.len() == 0 {
    } else if seq_le(s.last().fqn@, x.fqn@) {
        let r = s.push(x);
        assert forall|i: int, j: int| 0 <= i < j < r.len() implies seq_le(#[trigger] r[i].fqn@, #[trigger] r[j].fqn@) by {
            if j == s.len() && i < s.len() - 1 {
                lemma_le_trans(s[i].fqn@, s.last().fqn@, x.fqn@);
            }
        }
        assert forall|k: int| 0 <= k < r.len() implies (#[trigger] r[k] == x || s.contains(r[k])) by {
            if k < s.len() {
                assert(s[k] == r[k]);
            }
        }
    } else {
        let d = s.drop_last();
        lemma_insert_fqn_sorted(d, x);
        let m = insert_by_fqn(d, x);
        let r = m.push(s.last());
        lemma_le_total(s.last().fqn@, x.fqn@);
        assert forall|k: int| 0 <= k < m.len() implies seq_le(#[trigger] m[k].fqn@, s.last().fqn@) by {
            if m[k] != x {
                assert(d.contains(m[k]));
                let w = choose|w: int| 0 <= w < d.len() && d[w] == m[k];
                assert(s[w] == d[w]);
            }
        }
        assert forall|i: int, j: int| 0 <= i < j < r.len() implies seq_le(#[trigger] r[i].fqn@, #[trigger] r[j].fqn@) by {
            assert(r[i] == m[i]);
            if j < m.len() {
                assert(r[j] == m[j]);
            }
        }
        assert forall|k: int| 0 <= k < r.len() implies (#[trigger] r[k] == x || s.contains(r[k])) by {
            if k < m.len() {
                if m[k] != x {
                    assert(d.contains(m[k]));
                    let w = choose|w: int| 0 <= w < d.len() && d[w] == m[k];
                    assert(s[w] == d[w]);
                }
            } else {
                assert(s[s.len() - 1] == s.last());
            }
        }
    }
}

/// A layer's entries, once sorted, are in fully-qualified-name order.
pub proof fn lemma_entries_sorted_by_fqn(s: Seq<Entry>)
    ensures
        forall|i: int, j: int| 0 <= i < j < sort_by_fqn(s).len() ==> seq_le(#[trigger] sort_by_fqn(s)[i].fqn@, #[trigger] sort_by_fqn(s)[j].fqn@),
        sort_by_fqn(s).len() == s.len(),
    decreases s.len(),
{
    if s.len() > 0 {
        lemma_entries_sorted_by_fqn(s.drop_last());
        lemma_insert_fqn_sorted(sort_by_fqn(s.drop_last()), s.last());
    }
}

proof fn lemma_insert_layer_sorted(s: Seq<(String, Vec<Entry>)>, x: (String, Vec<Entry>))
    requires
        forall|i: int, j: int| 0 <= i < j < s.len() ==> seq_le(#[trigger] s[i].0@, #[trigger] s[j].0@),
    ensures
        forall|i: int, j: int| 0 <= i < j < insert_layer(s, x).len() ==> seq_le(
            #[trigger] insert_layer(s, x)[i].0@,
            #[trigger] insert_layer(s, x)[j].0@,
        ),
        insert_layer(s, x).len() == s.len() + 1,
        forall|k: int| 0 <= k < insert_layer(s, x).len() ==> (#[trigger] insert_layer(s, x)[k] == x || s.contains(insert_layer(s, x)[k])),
    decreases s.len(),
{
    if s.len() == 0 {
    } else if seq_le(s.last().0@, x.0@) {
        let r = s.push(x);
        assert forall|i: int, j: int| 0 <= i < j < r.len() implies seq_le(#[trigger] r[i].0@, #[trigger] r[j].0@) by {
            if j == s.len() && i < s.len() - 1 {
                lemma_le_trans(s[i].0@, s.last().0@, x.0@);
            }
        }
        assert forall|k: int| 0 <= k < r.len() implies (#[trigger] r[k] == x || s.contains(r[k])) by {
            if k < s.len() {
                assert(s[k] == r[k]);
            }
        }
    } else {
        let d = s.drop_last();
        lemma_insert_layer_sorted(d, x);
        let m = insert_layer(d, x);
        let r = m.push(s.last());
        lemma_le_total(s.last().0@, x.0@);
        assert forall|k: int| 0 <= k < m.len() implies seq_le(#[trigger] m[k].0@, s.last().0@) by {
            if m[k] != x {
                assert(d.contains(m[k]));
                let w = choose|w: int| 0 <= w < d.len() && d[w] == m[k];
                assert(s[w] == d[w]);
            }
        }
        assert forall|i: int, j: int| 0 <= i < j < r.len() implies seq_le(#[trigger] r[i].0@, #[trigger] r[j].0@) by {
            assert(r[i] == m[i]);
            if j < m.len() {
                assert(r[j] == m[j]);
            }
        }
        assert forall|k: int| 0 <= k < r.len() implies (#[trigger] r[k] == x || s.contains(r[k])) by {
            if k < m.len() {
                if m[k] != x {
                    assert(d.contains(m[k]));
                    let w = choose|w: int| 0 <= w < d.len() && d[w] == m[k];
                    assert(s[w] == d[w]);
                }
            } else {
                assert(s[s.len() - 1] == s.last());
            }
        }
    }
}

/// The report's layers are in layer-name order.
pub proof fn lemma_layers_sorted_by_name(s: Seq<(String, Vec<Entry>)>)
    ensures
        forall|i: int, j: int| 0 <= i < j < sort_layers(s).len() ==> seq_le(#[trigger] sort_layers(s)[i].0@, #[trigger] sort_layers(s)[j].0@),
        sort_layers(s).len() == s.len(),
    decreases s.len(),
{
    if s.len() > 0 {
        lemma_layers_sorted_by_name(s.drop_last());
        lemma_insert_layer_sorted(sort_layers(s.drop_last()), s.last());
    }
}


/// The layers whose files declare routes, in scan order.
pub open spec fn route_layers_spec() -> Seq<Seq<char>> {
    seq!["transport"@, "routes"@]
}

/// The layers whose files declare routes, in scan order.
pub fn route_layers() -> (r: Vec<String>)
    ensures
        views(r@) == route_layers_spec(),
{
    let r = vec![owned("transport"), owned("routes")];
    assert(views(r@) =~= route_layers_spec());
    r
}

/// Whether a file of a scanned layer is indexed: a Rust file other than a
/// `mod.rs` barrel.
pub fn is_indexed_file(file_name: &str) -> (r: bool)
    ensures
        r == (extension_spec(file_name@) == Some("rs"@) && file_name@ != "mod.rs"@),
{
    is_rust_file(file_name) && !str_eq(file_name, "mod.rs")
}


proof fn lemma_lt_le_trans(x: Seq<char>, y: Seq<char>, z: Seq<char>)
    requires
        seq_lt(x, y),
        seq_le(y, z),
    ensures
        seq_lt(x, z),
{
    lemma_le_trans(x, y, z);
    if x == z {
        lemma_le_antisym(y, z);
    }
}

proof fn lemma_route_le_trans(a: RouteEntry, b: RouteEntry, c: RouteEntry)
    requires
        route_le(a, b),
        route_le(b, c),
    ensures
        route_le(a, c),
{
    if seq_lt(a.path@, b.path@) {
        if seq_lt(b.path@, c.path@) {
            lemma_lt_le_trans(a.path@, b.path@, c.path@);
        }
    } else if seq_lt(b.path@, c.path@) {
    } else if seq_lt(a.method@, b.method@) {
        if seq_lt(b.method@, c.method@) {
            lemma_lt_le_trans(a.method@, b.method@, c.method@);
        }
    } else if seq_lt(b.method@, c.method@) {
    } else {
        lemma_le_trans(a.flow@, b.flow@, c.flow@);
    }
}

proof fn lemma_lt_or_eq(x: Seq<char>, y: Seq<char>)
    ensures
        seq_lt(x, y) || x == y || seq_lt(y, x),
{
    lemma_le_total(x, y);
}

proof fn lemma_route_le_total(a: RouteEntry, b: RouteEntry)
    ensures
        route_le(a, b) || route_le(b, a),
{
    lemma_lt_or_eq(a.path@, b.path@);
    lemma_lt_or_eq(a.method@, b.method@);
    lemma_le_total(a.flow@, b.flow@);
}

proof fn lemma_insert_route_sorted(s: Seq<RouteEntry>, x: RouteEntry)
    requires
        forall|i: int, j: int| 0 <= i < j < s.len() ==> route_le(#[trigger] s[i], #[trigger] s[j]),
    ensures
        forall|i: int, j: int| 0 <= i < j < insert_route(s, x).len() ==> route_le(
            #[trigger] insert_route(s, x)[i],
            #[trigger] insert_route(s, x)[j],
        ),
        insert_route(s, x).len() == s.len() + 1,
        forall|k: int| 0 <= k < insert_route(s, x).len() ==> (#[trigger] insert_route(s, x)[k] == x || s.contains(insert_route(s, x)[k])),
    decreases s.len(),
{
    if s.len() == 0 {
    } else if route_le(s.last(), x) {
        let r = s.push(x);
        assert forall|i: int, j: int| 0 <= i < j < r.len() implies route_le(#[trigger] r[i], #[trigger] r[j]) by {
            if j == s.len() && i < s.len() - 1 {
                lemma_route_le_trans(s[i], s.last(), x);
            }
        }
        assert forall|k: int| 0 <= k < r.len() implies (#[trigger] r[k] == x || s.contains(r[k])) by {
            if k < s.len() {
                assert(s[k] == r[k]);
            }
        }
    } else {
        let d = s.drop_last();
        lemma_insert_route_sorted(d, x);
        let m = insert_route(d, x);
        let r = m.push(s.last());
        lemma_route_le_total(s.last(), x);
        assert forall|k: int| 0 <= k < m.len() implies route_le(#[trigger] m[k], s.last()) by {
            if m[k] != x {
                assert(d.contains(m[k]));
                let w = choose|w: int| 0 <= w < d.len() && d[w] == m[k];
                assert(s[w] == d[w]);
            }
        }
        assert forall|i: int, j: int| 0 <= i < j < r.len() implies route_le(#[trigger] r[i], #[trigger] r[j]) by {
            assert(r[i] == m[i]);
            if j < m.len() {
                assert(r[j] == m[j]);
            }
        }
        assert forall|k: int| 0 <= k < r.len() implies (#[trigger] r[k] == x || s.contains(r[k])) by {
            if k < m.len() {
                if m[k] != x {
                    assert(d.contains(m[k]));
                    let w = choose|w: int| 0 <= w < d.len() && d[w] == m[k];
                    assert(s[w] == d[w]);
                }
            } else {
                assert(s[s.len() - 1] == s.last());
            }
        }
    }
}

/// The report's routes are in (path, method, flow) order.
pub proof fn lemma_routes_sorted(s: Seq<RouteEntry>)
    ensures
        forall|i: int, j: int| 0 <= i < j < sort_routes_spec(s).len() ==> route_le(
            #[trigger] sort_routes_spec(s)[i],
            #[trigger] sort_routes_spec(s)[j],
        ),
        sort_routes_spec(s).len() == s.len(),
    decreases s.len(),
{
    if s.len() > 0 {
        lemma_routes_sorted(s.drop_last());
        lemma_insert_route_sorted(sort_routes_spec(s.drop_last()), s.last());
    }
}

/// A file whose `use` items mention `tokio :: fs` or `std :: fs` is
/// classified `io`, and so not `pure`.
pub proof fn lemma_fs_use_is_io(use_text: Seq<char>)
    requires
        seq_contains(use_text, "tokio :: fs"@) || seq_contains(use_text, "std :: fs"@),
    ensures
        sorted_distinct(effect_classes(use_text)).contains("io"@),
        !sorted_distinct(effect_classes(use_text)).contains("pure"@),
{
    reveal_strlit("io");
    reveal_strlit("pure");
    reveal_strlit("db");
    reveal_strlit("net");
    let c = effect_classes(use_text);
    assert(c.last() == "io"@);
    assert(c.contains("io"@)) by {
        assert(c[c.len() - 1] == "io"@);
    }
    assert(!c.contains("pure"@)) by {
        if c.contains("pure"@) {
            let k = choose|k: int| 0 <= k < c.len() && c[k] == "pure"@;
            assert(c[k].len() == 2 || c[k].len() == 3);
        }
    }
    lemma_sorted_distinct_contains(c, "io"@);
    lemma_sorted_distinct_contains(c, "pure"@);
}

/// `diesel` in the `use` items makes a file `db`; `reqwest`, `hyper` or
/// `tower :: client` makes it `net`; a file that mentions none of the
/// markers is just `pure`.
pub proof fn lemma_effect_markers(use_text: Seq<char>)
    ensures
        seq_contains(use_text, "diesel"@) ==> sorted_distinct(effect_classes(use_text)).contains("db"@),
        seq_contains(use_text, "reqwest"@) || seq_contains(use_text, "hyper"@) || seq_contains(use_text, "tower :: client"@)
            ==> sorted_distinct(effect_classes(use_text)).contains("net"@),
        !seq_contains(use_text, "diesel"@) && !seq_contains(use_text, "reqwest"@) && !seq_contains(use_text, "hyper"@)
            && !seq_contains(use_text, "tower :: client"@) && !seq_contains(use_text, "tokio :: fs"@) && !seq_contains(
            use_text,
            "std :: fs"@,
        ) ==> sorted_distinct(effect_classes(use_text)) == seq!["pure"@],
{
    broadcast use vstd::seq_lib::to_multiset_contains;
    let c = effect_classes(use_text);
    lemma_sorted_distinct_contains(c, "db"@);
    lemma_sorted_distinct_contains(c, "net"@);
    if seq_contains(use_text, "diesel"@) {
        assert(c[0] == "db"@);
    }
    if seq_contains(use_text, "reqwest"@) || seq_contains(use_text, "hyper"@) || seq_contains(use_text, "tower :: client"@) {
        let db = seq_contains(use_text, "diesel"@);
        let k: int = if db { 1 } else { 0 };
        assert(c[k] == "net"@);
    }
    if !seq_contains(use_text, "diesel"@) && !seq_contains(use_text, "reqwest"@) && !seq_contains(use_text, "hyper"@)
        && !seq_contains(use_text, "tower :: client"@) && !seq_contains(use_text, "tokio :: fs"@) && !seq_contains(
        use_text,
        "std :: fs"@,
    ) {
        assert(c =~= seq!["pure"@]);
        lemma_lex_total_ordering();
        c.lemma_sort_by_ensures(lex());
        let t = c.sort_by(lex());
        assert(t.len() == 1) by {
            vstd::seq_lib::to_multiset_len(t);
            vstd::seq_lib::to_multiset_len(c);
        }
        assert(c.to_multiset().count("pure"@) > 0) by {
            assert(c.contains("pure"@)) by {
                assert(c[0] == "pure"@);
            }
        }
        assert(t.contains("pure"@));
        assert(t[0] == "pure"@);
        assert(t =~= seq!["pure"@]);
        assert(t.drop_last() =~= Seq::<Seq<char>>::empty());
        assert(dedup(t.drop_last()) =~= Seq::<Seq<char>>::empty());
        assert(dedup(t) =~= seq!["pure"@]);
    }
}

/// Sorting and dropping repeats keeps exactly the elements.
proof fn lemma_sorted_distinct_contains(s: Seq<Seq<char>>, x: Seq<char>)
    ensures
        sorted_distinct(s).contains(x) <==> s.contains(x),
{
    broadcast use vstd::seq_lib::to_multiset_contains;
    lemma_lex_total_ordering();
    s.lemma_sort_by_ensures(lex());
    let t = s.sort_by(lex());
    assert(s.to_multiset().count(x) == t.to_multiset().count(x));
    lemma_dedup_contains(t, x);
}

/// Dropping adjacent repeats keeps exactly the elements.
proof fn lemma_dedup_contains(s: Seq<Seq<char>>, x: Seq<char>)
    ensures
        dedup(s).contains(x) <==> s.contains(x),
    decreases s.len(),
{
    broadcast use vstd::seq_lib::lemma_seq_contains_after_push;
    if s.len() > 0 {
        let p = s.drop_last();
        lemma_dedup_contains(p, x);
        assert(p.push(s.last()) =~= s);
        let d = dedup(p);
        if d.len() > 0 && d.last() == s.last() {
            assert(d[d.len() - 1] == s.last());
        }
    }
}

} // verus!
