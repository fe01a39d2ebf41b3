//! Regular-expression matching, done by the `regex` crate.
use vstd::prelude::*;

verus! {

/// A captured group as a character sequence.
pub open spec fn group_view(o: Option<String>) -> Option<Seq<char>> {
    match o {
        Some(s) => Some(s@),
        None => None,
    }
}

pub open spec fn group_views(v: Seq<Vec<Option<String>>>) -> Seq<Seq<Option<Seq<char>>>> {
    v.map_values(|g: Vec<Option<String>>| g@.map_values(|o: Option<String>| group_view(o)))
}

/// Groups 1 to `n` of every non-overlapping match of `pattern` in `text`,
/// left to right (`Regex::captures_iter`); a group that did not take part
/// in a match is `None`.
pub uninterp spec fn regex_groups(pattern: Seq<char>, text: Seq<char>, n: nat) -> Seq<Seq<Option<Seq<char>>>>;

/// Whether `Regex::new` accepts `pattern`; this depends on the pattern alone.
pub uninterp spec fn regex_compiles(pattern: Seq<char>) -> bool;

/// Group `i` (0-based among the kept groups) of one match, `None` past the end.
pub open spec fn group_at(g: Seq<Option<Seq<char>>>, i: int) -> Option<Seq<char>> {
    if 0 <= i < g.len() {
        g[i]
    } else {
        None
    }
}

/// `regex::Regex::new(pattern)` and then `captures_iter(text)`, keeping
/// groups 1 to `n` of each match as owned strings. `None` when the pattern
/// does not compile, which is the named `regex_compiles`. What the engine
/// matches is the named `regex_groups`; neither is restated here.
#[verifier::external_body]
pub(crate) fn captures_iter_groups(pattern: &str, text: &str, n: usize) -> (r: Option<Vec<Vec<Option<String>>>>)
    ensures
        r is Some <==> regex_compiles(pattern@),
        r matches Some(v) ==> group_views(v@) == regex_groups(pattern@, text@, n as nat),
{
    match regex::Regex::new(pattern) {
        Ok(re) => Some(
            re.captures_iter(text).map(|c| (1..=n).map(|i| c.get(i).map(|m| m.as_str().to_string())).collect()).collect(),
        ),
        Err(_) => None,
    }
}

/// Takes group `i` out of one match's groups (`None` past the end).
pub fn take_group(g: &mut Vec<Option<String>>, i: usize) -> (r: Option<String>)
    ensures
        group_view(r) == group_at(old(g)@.map_values(|o: Option<String>| group_view(o)), i as int),
        final(g)@.len() == old(g)@.len(),
        forall|j: int| 0 <= j < old(g)@.len() && j != i ==> final(g)@[j] == old(g)@[j],
{
    if i < g.len() {
        let ghost before = g@;
        let mut taken: Option<String> = None;
        std::mem::swap(&mut taken, &mut g[i]);
        assert(before.map_values(|o: Option<String>| group_view(o))[i as int] == group_view(before[i as int]));
        taken
    } else {
        None
    }
}

} // verus!
