//! Per-enum display metadata: a label and an optional category for each
//! SQL variant string.
use vstd::prelude::*;
use crate::text::{owned, str_eq};

verus! {

pub struct VariantMeta {
    pub label: String,
    pub category: Option<String>,
}

pub struct EnumMeta {
    pub name: String,
    /// Metadata keyed by SQL variant string.
    pub variants: Vec<(String, VariantMeta)>,
}

/// The metadata of the first entry keyed `key`.
pub open spec fn meta_lookup(entries: Seq<(String, VariantMeta)>, key: Seq<char>) -> Option<VariantMeta>
    decreases entries.len(),
{
    if entries.len() == 0 {
        None
    } else if entries[0].0@ == key {
        Some(entries[0].1)
    } else {
        meta_lookup(entries.drop_first(), key)
    }
}

impl EnumMeta {
    /// Metadata for `name` with no variant entries.
    pub fn empty(name: &str) -> (r: Self)
        ensures
            r.name@ == name@,
            r.variants@.len() == 0,
    {
        EnumMeta { name: owned(name), variants: Vec::new() }
    }

    /// The entry for `key`, if any.
    pub fn lookup(&self, key: &str) -> (r: Option<&VariantMeta>)
        ensures
            r is None <==> meta_lookup(self.variants@, key@) is None,
            r matches Some(m) ==> meta_lookup(self.variants@, key@) == Some(*m),
    {
        let mut i: usize = 0;
        assert(self.variants@.skip(0) =~= self.variants@);
        while i < self.variants.len()
            invariant
                i <= self.variants.len(),
                meta_lookup(self.variants@, key@) == meta_lookup(self.variants@.skip(i as int), key@),
            decreases self.variants.len() - i,
        {
            assert(self.variants@.skip(i as int).drop_first() =~= self.variants@.skip(i + 1));
            if str_eq(self.variants[i].0.as_str(), key) {
                return Some(&self.variants[i].1);
            }
            i = i + 1;
        }
        None
    }

    /// Sets the metadata for `key` (`BTreeMap::insert`): an existing entry is
    /// replaced in place, a new one appended.
    pub fn insert(&mut self, key: String, value: VariantMeta)
        ensures
            final(self).name == old(self).name,
            meta_lookup(final(self).variants@, key@) == Some(value),
            forall|k: Seq<char>| k != key@ ==> #[trigger] meta_lookup(final(self).variants@, k) == meta_lookup(
                old(self).variants@,
                k,
            ),
    {
        let ghost kv = key@;
        let mut i: usize = 0;
        while i < self.variants.len()
            invariant
                i <= self.variants.len(),
                *self == *old(self),
                kv == key@,
                forall|j: int| 0 <= j < i ==> self.variants@[j].0@ != kv,
            decreases self.variants.len() - i,
        {
            if str_eq(self.variants[i].0.as_str(), key.as_str()) {
                let ghost before = self.variants@;
                let entry = (key, value);
                let ghost e = entry;
                self.variants.set(i, entry);
                proof {
                    lemma_meta_set(before, i as int, e);
                }
                return;
            }
            i = i + 1;
        }
        let ghost before = self.variants@;
        let entry = (key, value);
        let ghost e = entry;
        self.variants.push(entry);
        proof {
            lemma_meta_push(before, e);
        }
    }
}

proof fn lemma_meta_set(entries: Seq<(String, VariantMeta)>, i: int, e: (String, VariantMeta))
    requires
        0 <= i < entries.len(),
        entries[i].0@ == e.0@,
        forall|j: int| 0 <= j < i ==> entries[j].0@ != e.0@,
    ensures
        meta_lookup(entries.update(i, e), e.0@) == Some(e.1),
        forall|k: Seq<char>| k != e.0@ ==> #[trigger] meta_lookup(entries.update(i, e), k) == meta_lookup(entries, k),
    decreases i,
{
    let u = entries.update(i, e);
    if i == 0 {
        assert(u.drop_first() =~= entries.drop_first());
        assert(u[0] == e);
        assert forall|k: Seq<char>| k != e.0@ implies #[trigger] meta_lookup(u, k) == meta_lookup(entries, k) by {
            assert(u[0] == e);
        }
    } else {
        lemma_meta_set(entries.drop_first(), i - 1, e);
        assert(u.drop_first() =~= entries.drop_first().update(i - 1, e));
        assert(u[0] == entries[0]);
        assert forall|k: Seq<char>| k != e.0@ implies #[trigger] meta_lookup(u, k) == meta_lookup(entries, k) by {
            assert(meta_lookup(entries.drop_first().update(i - 1, e), k) == meta_lookup(entries.drop_first(), k));
        }
    }
}

proof fn lemma_meta_push(entries: Seq<(String, VariantMeta)>, e: (String, VariantMeta))
    requires
        forall|j: int| 0 <= j < entries.len() ==> entries[j].0@ != e.0@,
    ensures
        meta_lookup(entries.push(e), e.0@) == Some(e.1),
        forall|k: Seq<char>| k != e.0@ ==> #[trigger] meta_lookup(entries.push(e), k) == meta_lookup(entries, k),
    decreases entries.len(),
{
    let p = entries.push(e);
    if entries.len() == 0 {
        assert(p.drop_first() =~= Seq::<(String, VariantMeta)>::empty());
        assert(p[0] == e);
        assert forall|k: Seq<char>| k != e.0@ implies #[trigger] meta_lookup(p, k) == meta_lookup(entries, k) by {
            assert(meta_lookup(Seq::<(String, VariantMeta)>::empty(), k) is None);
        }
    } else {
        lemma_meta_push(entries.drop_first(), e);
        assert(p.drop_first() =~= entries.drop_first().push(e));
        assert(p[0] == entries[0]);
        assert forall|k: Seq<char>| k != e.0@ implies #[trigger] meta_lookup(p, k) == meta_lookup(entries, k) by {
            assert(meta_lookup(entries.drop_first().push(e), k) == meta_lookup(entries.drop_first(), k));
        }
    }
}

} // verus!
