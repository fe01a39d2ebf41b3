//! The top-level items of a Rust source file, as the index reads them: its
//! `use` items and its functions. Parsing is done by the `syn` crate.
use vstd::prelude::*;
use quote::ToTokens;
use self::TopItem::{Function, Import, Other};
use syn::Lit::Str;
use syn::Meta::NameValue;
use syn::Visibility::Public;
use syn::{parse_file, Expr, ExprLit, Item, MetaNameValue};
use crate::arsenal::scanner::{entry_views, file_entries, file_entries_spec, fn_item_views, Entry, FnItem, FnItemView};
use crate::error::BlastError;
use crate::text::{owned, seq_starts_with, str_eq, views};

verus! {

/// One top-level item of a source file.
pub enum TopItem {
    /// A `use` item, as token text.
    Import(String),
    /// A function: its name, its signature's token text, each attribute's
    /// path as token text with its string value where it has one, and
    /// whether it is `pub`.
    Function(String, String, Vec<(String, Option<String>)>, bool),
    /// Any other item.
    Other,
}

pub type AttrView = (Seq<char>, Option<Seq<char>>);

/// (kind: 0 use, 1 function, 2 other; text or name; signature; attributes; is public).
pub type TopItemView = (nat, Seq<char>, Seq<char>, Seq<AttrView>, bool);

pub open spec fn opt_view(o: Option<String>) -> Option<Seq<char>> {
    match o {
        Some(s) => Some(s@),
        None => None,
    }
}

pub open spec fn attr_views(v: Seq<(String, Option<String>)>) -> Seq<AttrView> {
    v.map_values(|a: (String, Option<String>)| (a.0@, opt_view(a.1)))
}

pub open spec fn top_item_view(t: TopItem) -> TopItemView {
    match t {
        TopItem::Import(u) => (0, u@, Seq::empty(), Seq::empty(), false),
        TopItem::Function(n, s, a, p) => (1, n@, s@, attr_views(a@), p),
        TopItem::Other => (2, Seq::empty(), Seq::empty(), Seq::empty(), false),
    }
}

pub open spec fn top_item_views(v: Seq<TopItem>) -> Seq<TopItemView> {
    v.map_values(|t: TopItem| top_item_view(t))
}

/// What `syn::parse_file` gives for a source text, read as top-level items;
/// `None` when the text is not a Rust file `syn` accepts. It depends on the
/// text alone.
pub uninterp spec fn syn_top_items(content: Seq<char>) -> Option<Seq<TopItemView>>;

/// `syn::parse_file`, each item converted by kind: a `use` item to its token
/// text (`quote`'s `to_token_stream`), a function to its name, signature
/// tokens, attributes (path tokens, string value) and visibility. The
/// contract names the result (`syn_top_items`); the error text is not stated.
#[verifier::external_body]
pub fn parse_top_items(content: &str) -> (r: Result<Vec<TopItem>, String>)
    ensures
        r is Ok <==> syn_top_items(content@) is Some,
        r matches Ok(v) ==> syn_top_items(content@) == Some(top_item_views(v@)),
{
    parse_file(content).map(|file| file.items.iter().map(|item| match item {
        Item::Use(u) => Import(u.to_token_stream().to_string()),
        Item::Fn(f) => Function(
            f.sig.ident.to_string(),
            f.sig.to_token_stream().to_string(),
            f.attrs.iter().map(|a| (a.path().to_token_stream().to_string(), match &a.meta {
                NameValue(MetaNameValue { value: Expr::Lit(ExprLit { lit: Str(s), .. }), .. }) => Some(s.value()),
                _ => None,
            })).collect(),
            matches!(f.vis, Public(_)),
        ),
        _ => Other,
    }).collect()).map_err(|e| e.to_string())
}

/// The string values of the `doc` attributes, in order.
pub open spec fn doc_values(attrs: Seq<AttrView>) -> Seq<Seq<char>>
    decreases attrs.len(),
{
    if attrs.len() == 0 {
        seq![]
    } else {
        let rest = doc_values(attrs.drop_last());
        match attrs.last().1 {
            Some(v) => if attrs.last().0 == "doc"@ {
                rest.push(v)
            } else {
                rest
            },
            None => rest,
        }
    }
}

/// The token text of the `use` items, one per line.
pub open spec fn use_text(items: Seq<TopItemView>) -> Seq<char>
    decreases items.len(),
{
    if items.len() == 0 {
        seq![]
    } else if items.last().0 == 0 {
        use_text(items.drop_last()) + items.last().1 + "\n"@
    } else {
        use_text(items.drop_last())
    }
}

/// The functions, each with its doc values.
pub open spec fn fn_items(items: Seq<TopItemView>) -> Seq<FnItemView>
    decreases items.len(),
{
    if items.len() == 0 {
        seq![]
    } else if items.last().0 == 1 {
        let t = items.last();
        fn_items(items.drop_last()).push((t.1, t.2, doc_values(t.3), t.4))
    } else {
        fn_items(items.drop_last())
    }
}

fn docs_of(attrs: &Vec<(String, Option<String>)>) -> (r: Vec<String>)
    ensures
        views(r@) == doc_values(attr_views(attrs@)),
{
    let ghost av = attr_views(attrs@);
    let mut out: Vec<String> = Vec::new();
    let mut i: usize = 0;
    while i < attrs.len()
        invariant
            i <= attrs@.len(),
            av == attr_views(attrs@),
            views(out@) == doc_values(av.take(i as int)),
        decreases attrs@.len() - i,
    {
        assert(av.take(i + 1).drop_last() =~= av.take(i as int));
        assert(av.take(i + 1).last() == av[i as int]);
        match &attrs[i].1 {
            Some(v) => {
                if str_eq(attrs[i].0.as_str(), "doc") {
                    let ghost before = views(out@);
                    out.push(owned(v.as_str()));
                    assert(views(out@) =~= before.push(v@));
                }
            },
            None => {},
        }
        i = i + 1;
    }
    assert(av.take(attrs@.len() as int) =~= av);
    out
}

fn split_items(items: &Vec<TopItem>) -> (r: (String, Vec<FnItem>))
    ensures
        r.0@ == use_text(top_item_views(items@)),
        fn_item_views(r.1@) == fn_items(top_item_views(items@)),
{
    let ghost tv = top_item_views(items@);
    let mut text = String::new();
    let mut fns: Vec<FnItem> = Vec::new();
    let mut i: usize = 0;
    assert(fn_item_views(fns@) =~= Seq::<FnItemView>::empty());
    while i < items.len()
        invariant
            i <= items@.len(),
            tv == top_item_views(items@),
            text@ == use_text(tv.take(i as int)),
            fn_item_views(fns@) == fn_items(tv.take(i as int)),
        decreases items@.len() - i,
    {
        assert(tv.take(i + 1).drop_last() =~= tv.take(i as int));
        assert(tv.take(i + 1).last() == tv[i as int]);
        match &items[i] {
            TopItem::Import(u) => {
                text.append(u.as_str());
                text.append("\n");
            },
            TopItem::Function(n, s, a, p) => {
                let docs = docs_of(a);
                let ghost before = fn_item_views(fns@);
                let f = FnItem { name: owned(n.as_str()), signature_tokens: owned(s.as_str()), docs, is_pub: *p };
                fns.push(f);
                assert(fn_item_views(fns@) =~= before.push((n@, s@, doc_values(attr_views(a@)), *p)));
            },
            TopItem::Other => {},
        }
        i = i + 1;
    }
    assert(tv.take(items@.len() as int) =~= tv);
    (text, fns)
}

/// The index entries of one source file: its text parsed by `syn`, then
/// each public function indexed (see `file_entries`). A text `syn` rejects
/// is refused with `syn parse <path>: ` and the parser's message.
pub fn file_entries_of(layer: &str, mod_path: &str, path: &str, rel: &str, content: &str) -> (r: Result<
    Vec<Entry>,
    BlastError,
>)
    ensures
        match r {
            Ok(v) => (syn_top_items(content@) matches Some(items) && entry_views(v@) == file_entries_spec(
                layer@,
                mod_path@,
                path@,
                rel@,
                content@,
                use_text(items),
                fn_items(items),
            )),
            Err(BlastError::Invalid(m)) => syn_top_items(content@) is None && seq_starts_with(
                m@,
                "syn parse "@ + path@ + ": "@,
            ),
            Err(_) => false,
        },
{
    match parse_top_items(content) {
        Ok(items) => {
            let (text, fns) = split_items(&items);
            Ok(file_entries(layer, mod_path, path, rel, content, text.as_str(), &fns))
        },
        Err(e) => {
            let mut m = owned("syn parse ");
            m.append(path);
            m.append(": ");
            let ghost head = m@;
            m.append(e.as_str());
            assert(m@.subrange(0, head.len() as int) =~= head);
            Err(BlastError::Invalid(m))
        },
    }
}

} // verus!
