//! The resource IR the code generators read: one `ResourceState` per
//! table, with its ordered fields and its declared verbs.
use vstd::prelude::*;
use crate::text::{owned, str_eq};

pub mod app;

verus! {

/// A Diesel SQL type name as written in the schema (`Int8`, `Varchar`, `UserRole`).
pub struct SqlType(pub String);

/// A column name.
pub struct FieldName(pub String);

/// A table name.
pub struct ResourceName(pub String);

impl View for SqlType {
    type V = Seq<char>;

    open spec fn view(&self) -> Seq<char> {
        self.0@
    }
}

impl View for FieldName {
    type V = Seq<char>;

    open spec fn view(&self) -> Seq<char> {
        self.0@
    }
}

impl View for ResourceName {
    type V = Seq<char>;

    open spec fn view(&self) -> Seq<char> {
        self.0@
    }
}

impl SqlType {
    pub fn new(s: &str) -> (r: Self)
        ensures
            r@ == s@,
    {
        SqlType(owned(s))
    }

    pub fn as_str(&self) -> (r: &str)
        ensures
            r@ == self@,
    {
        self.0.as_str()
    }
}

impl FieldName {
    pub fn new(s: &str) -> (r: Self)
        ensures
            r@ == s@,
    {
        FieldName(owned(s))
    }

    pub fn as_str(&self) -> (r: &str)
        ensures
            r@ == self@,
    {
        self.0.as_str()
    }
}

impl ResourceName {
    pub fn new(s: &str) -> (r: Self)
        ensures
            r@ == s@,
    {
        ResourceName(owned(s))
    }

    pub fn as_str(&self) -> (r: &str)
        ensures
            r@ == self@,
    {
        self.0.as_str()
    }
}

/// Which generated struct a field appears in.
#[derive(Debug, Clone, Copy, PartialEq, Eq, Structural)]
pub enum FieldVariant {
    Db,
    Insertable,
    Patch,
    Public,
    Admin,
}

/// The session value a `FromSession` field is filled from.
#[derive(Debug, Clone, Copy, PartialEq, Eq, Structural)]
pub enum SessionFieldRef {
    UserId,
    SessionId,
}

/// How a field is presented in generated forms.
#[derive(Debug, Clone, Copy, PartialEq, Eq, Structural)]
pub enum FieldKind {
    Plain,
    Hidden,
    FromSession(SessionFieldRef),
    Textarea,
}

/// A validation rule attached to a field.
pub enum ValidatorRule {
    OneOf(Vec<String>),
    /// Any other named rule (`email`, `min_len`, ...).
    Named(String),
}

pub struct FieldState {
    pub sql_type: SqlType,
    pub variants: Vec<FieldVariant>,
    pub nullable: bool,
    pub primary_key: bool,
    pub validators: Vec<ValidatorRule>,
    pub kind: FieldKind,
}

impl FieldState {
    pub open spec fn in_variant(&self, v: FieldVariant) -> bool {
        self.variants@.contains(v)
    }

    /// `self.variants.contains(&v)`.
    pub fn has_variant(&self, v: FieldVariant) -> (r: bool)
        ensures
            r == self.in_variant(v),
    {
        let mut i: usize = 0;
        while i < self.variants.len()
            invariant
                i <= self.variants.len(),
                forall|j: int| 0 <= j < i ==> self.variants@[j] != v,
            decreases self.variants.len() - i,
        {
            if self.variants[i] == v {
                return true;
            }
            i = i + 1;
        }
        false
    }
}

#[derive(Debug, Clone, Copy, PartialEq, Eq, Structural)]
pub enum Verb {
    List,
    Get,
    Create,
    Update,
    Delete,
}

pub enum AuthMode {
    Public,
    AuthRequired,
    AdminOnly,
    ScopedTo(FieldName),
    Roles(Vec<String>),
}

#[derive(Debug, Clone, Copy, PartialEq, Eq, Structural)]
pub enum FilterKind {
    Eq,
    Range,
    IlikeContains,
    In,
    Bool,
}

pub struct ListOptions {
    pub paginated: bool,
    /// Filterable columns with their filter kind, keyed by column name.
    pub filterable_columns: Vec<(FieldName, FilterKind)>,
    /// Columns the list may be sorted by.
    pub sortable_columns: Vec<FieldName>,
    /// Sort applied when the request names none.
    pub default_sort: Option<FieldName>,
    /// Largest page size the list serves, where it differs from the default.
    pub max_page_size: Option<u32>,
}

pub struct VerbState {
    pub auth: AuthMode,
    pub list_options: Option<ListOptions>,
    pub emit_html_page: bool,
    pub emit_rest_api: bool,
}

#[derive(Debug, Clone, Copy, PartialEq, Eq, Structural)]
pub enum TopicScope {
    Global,
    PerRow,
}

pub struct WsEventsState {
    pub topic_scope: TopicScope,
}

/// How far code generation goes for a resource, from the backend route
/// layer up to full pages.
#[derive(Debug, Clone, Copy, PartialEq, Eq, Structural)]
pub enum GenLevel {
    Route,
    Types,
    Composables,
    Pages,
}

impl GenLevel {
    pub open spec fn rank(self) -> int {
        match self {
            GenLevel::Route => 0,
            GenLevel::Types => 1,
            GenLevel::Composables => 2,
            GenLevel::Pages => 3,
        }
    }

    /// `self >= other`.
    pub fn at_least(self, other: GenLevel) -> (r: bool)
        ensures
            r == (self.rank() >= other.rank()),
    {
        let a: u8 = match self {
            GenLevel::Route => 0,
            GenLevel::Types => 1,
            GenLevel::Composables => 2,
            GenLevel::Pages => 3,
        };
        let b: u8 = match other {
            GenLevel::Route => 0,
            GenLevel::Types => 1,
            GenLevel::Composables => 2,
            GenLevel::Pages => 3,
        };
        a >= b
    }
}

/// One field of a resource, in declaration order.
pub type Field = (FieldName, FieldState);

pub struct ResourceState {
    pub name: ResourceName,
    /// Fields in declaration order; names are unique.
    pub fields: Vec<Field>,
    /// Declared verbs in declaration order; each verb at most once.
    pub verbs: Vec<(Verb, VerbState)>,
    pub ws_events: Option<WsEventsState>,
    pub singular_override: Option<String>,
    pub gen_level: GenLevel,
}

/// Field names are unique.
pub open spec fn unique_names(fields: Seq<Field>) -> bool {
    forall|i: int, j: int| 0 <= i < j < fields.len() ==> fields[i].0@ != fields[j].0@
}

/// Each verb is declared at most once.
pub open spec fn unique_verbs(verbs: Seq<(Verb, VerbState)>) -> bool {
    forall|i: int, j: int| 0 <= i < j < verbs.len() ==> verbs[i].0 != verbs[j].0
}

impl ResourceState {
    /// Well-formedness: the maps the fields and verbs stand for are maps.
    pub open spec fn wf(&self) -> bool {
        unique_names(self.fields@) && unique_verbs(self.verbs@)
    }

    pub open spec fn declares(&self, v: Verb) -> bool {
        exists|i: int| 0 <= i < self.verbs@.len() && #[trigger] self.verbs@[i].0 == v
    }

    pub open spec fn field_named(&self, name: Seq<char>) -> Option<FieldState> {
        field_lookup(self.fields@, name)
    }

    /// A resource with no fields and no verbs, generated up to pages.
    pub fn new(name: ResourceName) -> (r: Self)
        ensures
            r.name == name,
            r.fields@.len() == 0,
            r.verbs@.len() == 0,
            r.ws_events is None,
            r.singular_override is None,
            r.gen_level == GenLevel::Pages,
            r.wf(),
    {
        ResourceState {
            name,
            fields: Vec::new(),
            verbs: Vec::new(),
            ws_events: None,
            singular_override: None,
            gen_level: GenLevel::Pages,
        }
    }

    /// `verbs.contains_key(&v)`.
    pub fn has_verb(&self, v: Verb) -> (r: bool)
        ensures
            r == self.declares(v),
    {
        let mut i: usize = 0;
        while i < self.verbs.len()
            invariant
                i <= self.verbs.len(),
                forall|j: int| 0 <= j < i ==> self.verbs@[j].0 != v,
            decreases self.verbs.len() - i,
        {
            if self.verbs[i].0 == v {
                return true;
            }
            i = i + 1;
        }
        false
    }

    /// `verbs.get(&v)`.
    pub fn verb_state(&self, v: Verb) -> (r: Option<&VerbState>)
        ensures
            match r {
                Some(s) => verb_lookup(self.verbs@, v) == Some(*s),
                None => verb_lookup(self.verbs@, v) is None,
            },
            r is None <==> !self.declares(v),
    {
        let mut i: usize = 0;
        assert(self.verbs@.skip(0) =~= self.verbs@);
        while i < self.verbs.len()
            invariant
                i <= self.verbs.len(),
                forall|j: int| 0 <= j < i ==> self.verbs@[j].0 != v,
                verb_lookup(self.verbs@, v) == verb_lookup(self.verbs@.skip(i as int), v),
            decreases self.verbs.len() - i,
        {
            assert(self.verbs@.skip(i as int).drop_first() =~= self.verbs@.skip(i + 1));
            assert(self.verbs@.skip(i as int)[0] == self.verbs@[i as int]);
            if self.verbs[i].0 == v {
                return Some(&self.verbs[i].1);
            }
            i = i + 1;
        }
        None
    }

    /// `fields.insert(name, state)` on an insertion-ordered map: a new name
    /// is appended, an existing one keeps its position and takes the new state.
    pub fn insert_field(&mut self, name: FieldName, state: FieldState)
        requires
            old(self).wf(),
        ensures
            final(self).wf(),
            final(self).name == old(self).name,
            final(self).verbs == old(self).verbs,
            final(self).field_named(name@) == Some(state),
            forall|n: Seq<char>| n != name@ ==> #[trigger] final(self).field_named(n) == old(self).field_named(n),
            old(self).field_named(name@) is None ==> final(self).fields@ == old(self).fields@.push((name, state)),
            old(self).field_named(name@) is Some ==> final(self).fields@.len() == old(self).fields@.len(),
    {
        let ghost nm = name@;
        let mut i: usize = 0;
        while i < self.fields.len()
            invariant
                i <= self.fields.len(),
                *self == *old(self),
                old(self).wf(),
                nm == name@,
                forall|j: int| 0 <= j < i ==> self.fields@[j].0@ != nm,
            decreases self.fields.len() - i,
        {
            if str_eq(self.fields[i].0.as_str(), name.as_str()) {
                let ghost before = self.fields@;
                proof {
                    lemma_lookup_prefix(before, i as int, nm);
                }
                let entry: Field = (name, state);
                let ghost e = entry;
                self.fields.set(i, entry);
                proof {
                    lemma_lookup_after_set(before, i as int, nm, e.1);
                    assert(self.fields@ == before.update(i as int, e));
                    assert forall|n: Seq<char>| n != nm implies #[trigger] field_lookup(self.fields@, n)
                        == field_lookup(before, n) by {
                        lemma_lookup_set_other(before, i as int, e, n);
                    }
                    assert forall|a: int, b: int| 0 <= a < b < self.fields@.len() implies self.fields@[a].0@
                        != self.fields@[b].0@ by {
                        assert(before[a].0@ != before[b].0@);
                    }
                }
                return;
            }
            i = i + 1;
        }
        let ghost before = self.fields@;
        proof {
            lemma_lookup_absent(before, nm);
        }
        let entry: Field = (name, state);
        let ghost e = entry;
        self.fields.push(entry);
        proof {
            lemma_lookup_push(before, e, nm);
            assert forall|n: Seq<char>| n != nm implies #[trigger] field_lookup(self.fields@, n)
                == field_lookup(before, n) by {
                lemma_lookup_push(before, e, n);
            }
            assert forall|a: int, b: int| 0 <= a < b < self.fields@.len() implies self.fields@[a].0@
                != self.fields@[b].0@ by {
                if b < before.len() {
                    assert(before[a].0@ != before[b].0@);
                }
            }
        }
    }

    /// `verbs.insert(v, state)` on an insertion-ordered map.
    pub fn insert_verb(&mut self, v: Verb, state: VerbState)
        requires
            old(self).wf(),
        ensures
            final(self).wf(),
            final(self).name == old(self).name,
            final(self).fields == old(self).fields,
            final(self).declares(v),
            forall|w: Verb| w != v ==> (#[trigger] final(self).declares(w) == old(self).declares(w)),
    {
        let mut i: usize = 0;
        while i < self.verbs.len()
            invariant
                i <= self.verbs.len(),
                *self == *old(self),
                old(self).wf(),
                forall|j: int| 0 <= j < i ==> self.verbs@[j].0 != v,
            decreases self.verbs.len() - i,
        {
            if self.verbs[i].0 == v {
                let ghost before = self.verbs@;
                self.verbs.set(i, (v, state));
                assert(self.verbs@[i as int].0 == v);
                assert forall|a: int, b: int| 0 <= a < b < self.verbs@.len() implies self.verbs@[a].0
                    != self.verbs@[b].0 by {
                    assert(before[a].0 != before[b].0);
                }
                assert forall|w: Verb| w != v implies (#[trigger] self.declares(w) == old(self).declares(w)) by {
                    if self.declares(w) {
                        let k = choose|k: int| 0 <= k < self.verbs@.len() && #[trigger] self.verbs@[k].0 == w;
                        assert(before[k].0 == w);
                    }
                    if old(self).declares(w) {
                        let k = choose|k: int| 0 <= k < before.len() && #[trigger] before[k].0 == w;
                        assert(self.verbs@[k].0 == w);
                    }
                }
                return;
            }
            i = i + 1;
        }
        let ghost before = self.verbs@;
        self.verbs.push((v, state));
        assert(self.verbs@[before.len() as int].0 == v);
        assert forall|a: int, b: int| 0 <= a < b < self.verbs@.len() implies self.verbs@[a].0
            != self.verbs@[b].0 by {
            if b < before.len() {
                assert(before[a].0 != before[b].0);
            }
        }
        assert forall|w: Verb| w != v implies (#[trigger] self.declares(w) == old(self).declares(w)) by {
            if self.declares(w) {
                let k = choose|k: int| 0 <= k < self.verbs@.len() && #[trigger] self.verbs@[k].0 == w;
                assert(before[k].0 == w);
            }
            if old(self).declares(w) {
                let k = choose|k: int| 0 <= k < before.len() && #[trigger] before[k].0 == w;
                assert(self.verbs@[k].0 == w);
            }
        }
    }
}

/// The state of the first declaration of verb `v`.
pub open spec fn verb_lookup(verbs: Seq<(Verb, VerbState)>, v: Verb) -> Option<VerbState>
    decreases verbs.len(),
{
    if verbs.len() == 0 {
        None
    } else if verbs[0].0 == v {
        Some(verbs[0].1)
    } else {
        verb_lookup(verbs.drop_first(), v)
    }
}

/// The filter kind of the first entry for column `name`.
pub open spec fn filter_lookup(cols: Seq<(FieldName, FilterKind)>, name: Seq<char>) -> Option<FilterKind>
    decreases cols.len(),
{
    if cols.len() == 0 {
        None
    } else if cols[0].0@ == name {
        Some(cols[0].1)
    } else {
        filter_lookup(cols.drop_first(), name)
    }
}

impl ListOptions {
    /// `filterable_columns.get(name)`.
    pub fn filter_kind(&self, name: &str) -> (r: Option<FilterKind>)
        ensures
            r == filter_lookup(self.filterable_columns@, name@),
    {
        let mut i: usize = 0;
        assert(self.filterable_columns@.skip(0) =~= self.filterable_columns@);
        while i < self.filterable_columns.len()
            invariant
                i <= self.filterable_columns.len(),
                filter_lookup(self.filterable_columns@, name@) == filter_lookup(
                    self.filterable_columns@.skip(i as int),
                    name@,
                ),
            decreases self.filterable_columns.len() - i,
        {
            assert(self.filterable_columns@.skip(i as int).drop_first() =~= self.filterable_columns@.skip(i + 1));
            if str_eq(self.filterable_columns[i].0.as_str(), name) {
                return Some(self.filterable_columns[i].1);
            }
            i = i + 1;
        }
        None
    }
}

/// The state of the first field named `name`.
pub open spec fn field_lookup(fields: Seq<Field>, name: Seq<char>) -> Option<FieldState>
    decreases fields.len(),
{
    if fields.len() == 0 {
        None
    } else if fields[0].0@ == name {
        Some(fields[0].1)
    } else {
        field_lookup(fields.drop_first(), name)
    }
}

proof fn lemma_lookup_absent(fields: Seq<Field>, name: Seq<char>)
    requires
        forall|j: int| 0 <= j < fields.len() ==> fields[j].0@ != name,
    ensures
        field_lookup(fields, name) is None,
    decreases fields.len(),
{
    if fields.len() > 0 {
        lemma_lookup_absent(fields.drop_first(), name);
    }
}

proof fn lemma_lookup_prefix(fields: Seq<Field>, i: int, name: Seq<char>)
    requires
        0 <= i < fields.len(),
        fields[i].0@ == name,
        forall|j: int| 0 <= j < i ==> fields[j].0@ != name,
    ensures
        field_lookup(fields, name) == Some(fields[i].1),
    decreases i,
{
    if i > 0 {
        lemma_lookup_prefix(fields.drop_first(), i - 1, name);
    }
}

proof fn lemma_lookup_after_set(fields: Seq<Field>, i: int, name: Seq<char>, st: FieldState)
    requires
        0 <= i < fields.len(),
        fields[i].0@ == name,
        forall|j: int| 0 <= j < i ==> fields[j].0@ != name,
    ensures
        forall|n: FieldName| n@ == name ==> field_lookup(#[trigger] fields.update(i, (n, st)), name) == Some(st),
    decreases i,
{
    assert forall|n: FieldName| n@ == name implies field_lookup(#[trigger] fields.update(i, (n, st)), name)
        == Some(st) by {
        let u = fields.update(i, (n, st));
        assert(u[i].0@ == name);
        assert forall|j: int| 0 <= j < i implies u[j].0@ != name by {
            assert(u[j] == fields[j]);
        }
        lemma_lookup_prefix(u, i, name);
    }
}

proof fn lemma_lookup_set_other(fields: Seq<Field>, i: int, f: Field, n: Seq<char>)
    requires
        0 <= i < fields.len(),
        fields[i].0@ == f.0@,
        n != f.0@,
    ensures
        field_lookup(fields.update(i, f), n) == field_lookup(fields, n),
    decreases fields.len(),
{
    if i > 0 {
        lemma_lookup_set_other(fields.drop_first(), i - 1, f, n);
        assert(fields.update(i, f).drop_first() =~= fields.drop_first().update(i - 1, f));
    } else {
        assert(fields.update(i, f).drop_first() =~= fields.drop_first());
    }
}

proof fn lemma_lookup_push(fields: Seq<Field>, f: Field, n: Seq<char>)
    requires
        n != f.0@ || field_lookup(fields, n) is None,
    ensures
        field_lookup(fields.push(f), n) == (if field_lookup(fields, n) is Some {
            field_lookup(fields, n)
        } else if n == f.0@ {
            Some(f.1)
        } else {
            None
        }),
    decreases fields.len(),
{
    if fields.len() > 0 {
        assert(fields.push(f)[0] == fields[0]);
        if fields[0].0@ != n {
            lemma_lookup_push(fields.drop_first(), f, n);
            assert(fields.push(f).drop_first() =~= fields.drop_first().push(f));
        }
    } else {
        assert(fields.push(f).drop_first() =~= Seq::<Field>::empty());
        assert(fields.push(f)[0] == f);
        assert(field_lookup(Seq::<Field>::empty(), n) is None);
        assert(field_lookup(fields, n) is None);
    }
}

} // verus!
