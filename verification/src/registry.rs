//! The interning registry and the compaction model.
//!
//! A [`Registry`] owns two interning tables — strings and type identities —
//! plus the list of compact type identifiers, one per distinct identity, in
//! first-seen order. The spec functions in this module form a functional
//! model of interning and compaction: every exec operation is pinned to the
//! model, so compaction is a function of the starting tables and the input
//! graph alone.

use vstd::prelude::*;

use crate::compact::{
    CompactClikeEnumVariant, CompactClikeEnumVariantView, CompactEnumVariant,
    CompactEnumVariantView, CompactNamedField, CompactNamedFieldView, CompactTypeDef,
    CompactTypeDefView, CompactTypeId, CompactTypeIdView, CompactTypePath, CompactTypePathView,
};
use crate::meta_type::MetaType;
use crate::type_def::{
    ClikeEnumVariant, EnumVariant, EnumVariantStruct, EnumVariantTupleStruct, EnumVariantUnit,
    NamedField, TypeDef, TypeDefStruct, TypeDefTupleStruct, TypePath, TypeSum, TypeSumClikeEnum,
    TypeSumEnum, UnnamedField,
};
use crate::type_id::{TypeId, TypeIdArray, TypeIdCustom, TypeIdSlice, TypeIdTuple};

verus! {

/// The index of the first occurrence of `x` in `s`; meaningful only when
/// `s` contains `x`.
pub open spec fn first_index_of<A>(s: Seq<A>, x: A) -> int
    decreases s.len(),
{
    if s.len() == 0 {
        0
    } else if s[0] == x {
        0
    } else {
        1 + first_index_of(s.subrange(1, s.len() as int), x)
    }
}

/// Where `s` contains `x`, `first_index_of` lands on the first occurrence.
pub proof fn lemma_first_index_of_contains<A>(s: Seq<A>, x: A)
    requires
        s.contains(x),
    ensures
        0 <= first_index_of(s, x) < s.len(),
        s[first_index_of(s, x)] == x,
        forall|j: int| 0 <= j < first_index_of(s, x) ==> s[j] != x,
    decreases s.len(),
{
    if s[0] == x {
    } else {
        let i = choose|i: int| 0 <= i < s.len() && s[i] == x;
        let t = s.subrange(1, s.len() as int);
        assert(t[i - 1] == x);
        assert(t.contains(x));
        lemma_first_index_of_contains(t, x);
        assert forall|j: int| 0 <= j < first_index_of(s, x) implies s[j] != x by {
            if j > 0 {
                assert(t[j - 1] == s[j]);
            }
        }
    }
}

/// `first_index_of` is the witnessed position when everything before it
/// differs from `x`.
pub proof fn lemma_first_index_of_unique<A>(s: Seq<A>, x: A, i: int)
    requires
        0 <= i < s.len(),
        s[i] == x,
        forall|j: int| 0 <= j < i ==> s[j] != x,
    ensures
        s.contains(x),
        first_index_of(s, x) == i,
    decreases s.len(),
{
    assert(s.contains(x));
    if s[0] == x {
    } else {
        let t = s.subrange(1, s.len() as int);
        assert(t[i - 1] == x);
        assert forall|j: int| 0 <= j < i - 1 implies t[j] != x by {
            assert(t[j] == s[j + 1]);
        }
        lemma_first_index_of_unique(t, x, i - 1);
    }
}

/// Appending `x` to a sequence that lacks it puts its first occurrence at
/// the end.
pub proof fn lemma_first_index_of_push<A>(s: Seq<A>, x: A)
    requires
        !s.contains(x),
    ensures
        s.push(x).contains(x),
        first_index_of(s.push(x), x) == s.len(),
    decreases s.len(),
{
    let p = s.push(x);
    assert(p[s.len() as int] == x);
    assert forall|j: int| 0 <= j < s.len() implies p[j] != x by {
        assert(p[j] == s[j]);
    }
    lemma_first_index_of_unique(p, x, s.len() as int);
}

/// The first occurrence of a contained element does not move when the
/// sequence is extended on the right.
pub proof fn lemma_first_index_of_extend<A>(s: Seq<A>, t: Seq<A>, x: A)
    requires
        s.contains(x),
        s.is_prefix_of(t),
    ensures
        t.contains(x),
        first_index_of(t, x) == first_index_of(s, x),
{
    lemma_first_index_of_contains(s, x);
    let i = first_index_of(s, x);
    assert(t[i] == s[i]);
    assert forall|j: int| 0 <= j < i implies t[j] != x by {
        assert(t[j] == s[j]);
    }
    lemma_first_index_of_unique(t, x, i);
}

/// The tables of a registry, at the spec level: the interned strings, the
/// interned type identities, and the compact type identifier recorded for
/// each identity, all in first-seen order.
pub struct RegistryModel {
    /// The string table.
    pub strings: Seq<Seq<char>>,
    /// The identity tokens, parallel to `types`.
    pub ids: Seq<u64>,
    /// The compact type table.
    pub types: Seq<CompactTypeIdView>,
}

/// Well-formed tables: one compact type per identity, and no table holds an
/// entry twice.
pub open spec fn model_wf(m: RegistryModel) -> bool {
    &&& m.ids.len() == m.types.len()
    &&& forall|i: int, j: int| 0 <= i < j < m.strings.len() ==> m.strings[i] != m.strings[j]
    &&& forall|i: int, j: int| 0 <= i < j < m.ids.len() ==> m.ids[i] != m.ids[j]
}

/// Tables only grow: every table of `m0` is a prefix of the same table of
/// `m1`, so indices handed out against `m0` stay valid and unchanged.
pub open spec fn model_extends(m0: RegistryModel, m1: RegistryModel) -> bool {
    &&& m0.strings.is_prefix_of(m1.strings)
    &&& m0.ids.is_prefix_of(m1.ids)
    &&& m0.types.is_prefix_of(m1.types)
}

/// `model_extends` is reflexive.
pub proof fn lemma_model_extends_refl(m: RegistryModel)
    ensures
        model_extends(m, m),
{
    assert(m.strings.subrange(0, m.strings.len() as int) =~= m.strings);
    assert(m.ids.subrange(0, m.ids.len() as int) =~= m.ids);
    assert(m.types.subrange(0, m.types.len() as int) =~= m.types);
}

/// `model_extends` composes.
pub proof fn lemma_model_extends_trans(m0: RegistryModel, m1: RegistryModel, m2: RegistryModel)
    requires
        model_extends(m0, m1),
        model_extends(m1, m2),
    ensures
        model_extends(m0, m2),
{
    assert(m2.strings.subrange(0, m0.strings.len() as int) =~= m0.strings);
    assert(m2.ids.subrange(0, m0.ids.len() as int) =~= m0.ids);
    assert(m2.types.subrange(0, m0.types.len() as int) =~= m0.types);
}

/// The tables after interning one string: unchanged when the string is
/// already present, extended by it otherwise.
pub open spec fn intern_string_model(m: RegistryModel, s: Seq<char>) -> RegistryModel {
    if m.strings.contains(s) {
        m
    } else {
        RegistryModel { strings: m.strings.push(s), ids: m.ids, types: m.types }
    }
}

/// The canonical index of `s` once it has been interned into `m`.
pub open spec fn string_index_model(m: RegistryModel, s: Seq<char>) -> int {
    first_index_of(intern_string_model(m, s).strings, s)
}

/// The tables after interning one type identity with its compact value:
/// unchanged when the identity is already present, extended by the pair
/// otherwise.
pub open spec fn intern_type_model(m: RegistryModel, id: u64, v: CompactTypeIdView) -> RegistryModel {
    if m.ids.contains(id) {
        m
    } else {
        RegistryModel { strings: m.strings, ids: m.ids.push(id), types: m.types.push(v) }
    }
}

/// The canonical index of the identity `id` once it has been interned.
pub open spec fn type_index_model(m: RegistryModel, id: u64, v: CompactTypeIdView) -> int {
    first_index_of(intern_type_model(m, id, v).ids, id)
}

/// The tables after interning a sequence of strings left to right, paired
/// with the canonical index of each.
pub open spec fn intern_strings_model(m: RegistryModel, ss: Seq<Seq<char>>) -> (
    RegistryModel,
    Seq<int>,
)
    decreases ss.len(),
{
    if ss.len() == 0 {
        (m, Seq::empty())
    } else {
        let prev = intern_strings_model(m, ss.drop_last());
        (
            intern_string_model(prev.0, ss.last()),
            prev.1.push(string_index_model(prev.0, ss.last())),
        )
    }
}

/// The tables after compacting one type identifier, paired with its compact
/// image. Traversal is depth-first, left to right over declared order.
pub open spec fn compact_tid_model(m: RegistryModel, t: TypeId) -> (
    RegistryModel,
    CompactTypeIdView,
)
    decreases t, 0int,
{
    match t {
        TypeId::Primitive(p) => (m, CompactTypeIdView::Primitive { prim: p }),
        TypeId::Custom(c) => compact_custom_model(m, c),
        TypeId::Slice(s) => compact_slice_model(m, s),
        TypeId::Array(a) => compact_array_model(m, a),
        TypeId::Tuple(tu) => compact_tuple_model(m, tu),
    }
}

/// The tables after compacting a custom type identifier: its name, then its
/// namespace segments, then each generic argument in order.
pub open spec fn compact_custom_model(m: RegistryModel, c: TypeIdCustom) -> (
    RegistryModel,
    CompactTypeIdView,
)
    decreases c, 0int,
{
    let m1 = intern_string_model(m, c.name@);
    let ni = string_index_model(m, c.name@);
    let p2 = intern_strings_model(m1, c.namespace.segments.deep_view());
    let p3 = register_metas_model(p2.0, c.type_params, c.type_params@.len() as int);
    (p3.0, CompactTypeIdView::Custom { name: ni, namespace: p2.1, type_params: p3.1 })
}

/// The tables after compacting a slice identifier: its element is
/// registered, and the image holds the element's canonical index.
pub open spec fn compact_slice_model(m: RegistryModel, s: TypeIdSlice) -> (
    RegistryModel,
    CompactTypeIdView,
)
    decreases s, 0int,
{
    let m1 = register_meta_model(m, s.type_param);
    (m1, CompactTypeIdView::Slice { type_param: meta_index_model(m, s.type_param) })
}

/// The tables after compacting an array identifier.
pub open spec fn compact_array_model(m: RegistryModel, a: TypeIdArray) -> (
    RegistryModel,
    CompactTypeIdView,
)
    decreases a, 0int,
{
    let m1 = register_meta_model(m, a.type_param);
    (m1, CompactTypeIdView::Array { len: a.len, type_param: meta_index_model(m, a.type_param) })
}

/// The tables after compacting a tuple identifier.
pub open spec fn compact_tuple_model(m: RegistryModel, tu: TypeIdTuple) -> (
    RegistryModel,
    CompactTypeIdView,
)
    decreases tu, 0int,
{
    let p = register_metas_model(m, tu.type_params, tu.type_params@.len() as int);
    (p.0, CompactTypeIdView::Tuple { type_params: p.1 })
}

/// The tables after registering the first `n` handles of `hs` left to
/// right, paired with the canonical index of each.
pub open spec fn register_metas_model(m: RegistryModel, hs: Vec<MetaType>, n: int) -> (
    RegistryModel,
    Seq<int>,
)
    decreases hs, n,
{
    if n <= 0 || n > hs@.len() {
        (m, Seq::empty())
    } else {
        let prev = register_metas_model(m, hs, n - 1);
        let h = hs@[n - 1];
        (register_meta_model(prev.0, h), prev.1.push(meta_index_model(prev.0, h)))
    }
}

/// The tables after registering one handle: unchanged when its identity is
/// already interned; otherwise its type identifier is compacted depth-first
/// and then recorded under the identity.
pub open spec fn register_meta_model(m: RegistryModel, h: MetaType) -> RegistryModel
    decreases h, 1int,
{
    if m.ids.contains(h.any_id) {
        m
    } else {
        let p = compact_tid_model(m, *h.type_id);
        intern_type_model(p.0, h.any_id, p.1)
    }
}

/// The canonical index of a handle's identity once it has been registered.
pub open spec fn meta_index_model(m: RegistryModel, h: MetaType) -> int
    decreases h, 2int,
{
    first_index_of(register_meta_model(m, h).ids, h.any_id)
}

/// An interning table that deduplicates strings and type identities into
/// dense, stable indices. Created fresh per compaction pass; the tables only
/// grow and never renumber.
#[derive(PartialEq, Eq, Debug)]
pub struct Registry {
    /// The interned strings, in first-seen order.
    pub strings: Vec<String>,
    /// The interned identity tokens, parallel to `types`.
    pub ids: Vec<u64>,
    /// The compact type recorded for each interned identity.
    pub types: Vec<CompactTypeId>,
}

impl View for Registry {
    type V = RegistryModel;

    open spec fn view(&self) -> RegistryModel {
        RegistryModel {
            strings: self.strings.deep_view(),
            ids: self.ids@,
            types: self.types@.map_values(|t: CompactTypeId| t@),
        }
    }
}

fn find_string(strings: &Vec<String>, s: &String) -> (r: Option<usize>)
    ensures
        match r {
            Some(i) => strings.deep_view().contains(s@) && i as int == first_index_of(
                strings.deep_view(),
                s@,
            ),
            None => !strings.deep_view().contains(s@),
        },
{
    let ghost dv = strings.deep_view();
    let mut i: usize = 0;
    while i < strings.len()
        invariant
            i <= strings@.len(),
            dv == strings.deep_view(),
            dv.len() == strings@.len(),
            forall|j: int| 0 <= j < i ==> dv[j] != s@,
        decreases strings@.len() - i,
    {
        if strings[i].eq(s) {
            proof {
                lemma_first_index_of_unique(dv, s@, i as int);
            }
            return Some(i);
        }
        i += 1;
    }
    None
}

fn find_id(ids: &Vec<u64>, id: u64) -> (r: Option<usize>)
    ensures
        match r {
            Some(i) => ids@.contains(id) && i as int == first_index_of(ids@, id),
            None => !ids@.contains(id),
        },
{
    let mut i: usize = 0;
    while i < ids.len()
        invariant
            i <= ids@.len(),
            forall|j: int| 0 <= j < i ==> ids@[j] != id,
        decreases ids@.len() - i,
    {
        if ids[i] == id {
            proof {
                lemma_first_index_of_unique(ids@, id, i as int);
            }
            return Some(i);
        }
        i += 1;
    }
    None
}

impl Registry {
    /// Well-formed interning tables.
    pub open spec fn wf(self) -> bool {
        model_wf(self@)
    }

    /// Creates a registry with empty tables.
    pub fn new() -> (r: Registry)
        ensures
            r.wf(),
            model_closed(r@),
            r@ == (RegistryModel {
                strings: Seq::<Seq<char>>::empty(),
                ids: Seq::<u64>::empty(),
                types: Seq::<CompactTypeIdView>::empty(),
            }),
    {
        let r = Registry { strings: Vec::new(), ids: Vec::new(), types: Vec::new() };
        proof {
            assert(r@.strings =~= Seq::<Seq<char>>::empty());
            assert(r@.types =~= Seq::<CompactTypeIdView>::empty());
        }
        r
    }

    /// Returns the canonical index of `s`, appending it to the string table
    /// on first sight.
    pub fn intern_string(&mut self, s: &String) -> (idx: usize)
        requires
            old(self).wf(),
        ensures
            final(self).wf(),
            final(self)@ == intern_string_model(old(self)@, s@),
            idx as int == string_index_model(old(self)@, s@),
            model_extends(old(self)@, final(self)@),
    {
        let ghost m0 = self@;
        match find_string(&self.strings, s) {
            Some(i) => {
                proof {
                    assert(m0.strings.is_prefix_of(m0.strings)) by {
                        assert(m0.strings.subrange(0, m0.strings.len() as int) =~= m0.strings);
                    }
                    assert(m0.ids.is_prefix_of(m0.ids)) by {
                        assert(m0.ids.subrange(0, m0.ids.len() as int) =~= m0.ids);
                    }
                    assert(m0.types.is_prefix_of(m0.types)) by {
                        assert(m0.types.subrange(0, m0.types.len() as int) =~= m0.types);
                    }
                }
                i
            },
            None => {
                let i = self.strings.len();
                self.strings.push(s.clone());
                proof {
                    assert(self.strings.deep_view() =~= m0.strings.push(s@));
                    assert(self@ == intern_string_model(m0, s@));
                    lemma_first_index_of_push(m0.strings, s@);
                    assert(m0.strings.is_prefix_of(self@.strings)) by {
                        assert(self@.strings.subrange(0, m0.strings.len() as int) =~= m0.strings);
                    }
                    assert(m0.ids.is_prefix_of(self@.ids)) by {
                        assert(self@.ids.subrange(0, m0.ids.len() as int) =~= m0.ids);
                    }
                    assert(m0.types.is_prefix_of(self@.types)) by {
                        assert(self@.types.subrange(0, m0.types.len() as int) =~= m0.types);
                    }
                    assert forall|a: int, b: int|
                        0 <= a < b < self@.strings.len() implies self@.strings[a]
                        != self@.strings[b] by {
                        if b < m0.strings.len() {
                        } else {
                            assert(self@.strings[a] == m0.strings[a]);
                            assert(!m0.strings.contains(s@));
                        }
                    }
                }
                i
            },
        }
    }

    /// Returns the canonical index of the identity `id`, recording `value`
    /// for it on first sight. A later call with the same identity returns
    /// the first-seen index and records nothing.
    pub fn intern_type(&mut self, id: u64, value: CompactTypeId) -> (idx: usize)
        requires
            old(self).wf(),
        ensures
            final(self).wf(),
            final(self)@ == intern_type_model(old(self)@, id, value@),
            idx as int == type_index_model(old(self)@, id, value@),
            final(self)@.ids.contains(id),
            model_extends(old(self)@, final(self)@),
    {
        let ghost m0 = self@;
        match find_id(&self.ids, id) {
            Some(i) => {
                proof {
                    assert(m0.strings.is_prefix_of(m0.strings)) by {
                        assert(m0.strings.subrange(0, m0.strings.len() as int) =~= m0.strings);
                    }
                    assert(m0.ids.is_prefix_of(m0.ids)) by {
                        assert(m0.ids.subrange(0, m0.ids.len() as int) =~= m0.ids);
                    }
                    assert(m0.types.is_prefix_of(m0.types)) by {
                        assert(m0.types.subrange(0, m0.types.len() as int) =~= m0.types);
                    }
                }
                i
            },
            None => {
                let i = self.ids.len();
                self.ids.push(id);
                self.types.push(value);
                proof {
                    assert(self@.types =~= m0.types.push(value@));
                    assert(self@ == intern_type_model(m0, id, value@));
                    lemma_first_index_of_push(m0.ids, id);
                    assert(m0.strings.is_prefix_of(self@.strings)) by {
                        assert(self@.strings.subrange(0, m0.strings.len() as int) =~= m0.strings);
                    }
                    assert(m0.ids.is_prefix_of(self@.ids)) by {
                        assert(self@.ids.subrange(0, m0.ids.len() as int) =~= m0.ids);
                    }
                    assert(m0.types.is_prefix_of(self@.types)) by {
                        assert(self@.types.subrange(0, m0.types.len() as int) =~= m0.types);
                    }
                    assert forall|a: int, b: int|
                        0 <= a < b < self@.ids.len() implies self@.ids[a] != self@.ids[b] by {
                        if b < m0.ids.len() {
                        } else {
                            assert(self@.ids[a] == m0.ids[a]);
                            assert(!m0.ids.contains(id));
                        }
                    }
                }
                i
            },
        }
    }

    /// Interns each of the given strings, returning their canonical
    /// indices in order.
    pub fn intern_strings(&mut self, ss: &Vec<String>) -> (r: Vec<usize>)
        requires
            old(self).wf(),
        ensures
            final(self).wf(),
            final(self)@ == intern_strings_model(old(self)@, ss.deep_view()).0,
            r@.map_values(|x: usize| x as int) == intern_strings_model(
                old(self)@,
                ss.deep_view(),
            ).1,
            model_extends(old(self)@, final(self)@),
    {
        let ghost m0 = self@;
        let ghost dv = ss.deep_view();
        let mut r: Vec<usize> = Vec::new();
        let mut i: usize = 0;
        proof {
            lemma_model_extends_refl(m0);
            assert(dv.subrange(0, 0) =~= Seq::<Seq<char>>::empty());
            assert(r@.map_values(|x: usize| x as int) =~= Seq::<int>::empty());
        }
        while i < ss.len()
            invariant
                i <= ss@.len(),
                dv == ss.deep_view(),
                dv.len() == ss@.len(),
                self.wf(),
                self@ == intern_strings_model(m0, dv.subrange(0, i as int)).0,
                r@.map_values(|x: usize| x as int) == intern_strings_model(
                    m0,
                    dv.subrange(0, i as int),
                ).1,
                model_extends(m0, self@),
            decreases ss@.len() - i,
        {
            let ghost mcur = self@;
            let ghost rcur = r@.map_values(|x: usize| x as int);
            let idx = self.intern_string(&ss[i]);
            r.push(idx);
            proof {
                let post = dv.subrange(0, i + 1);
                assert(post.drop_last() =~= dv.subrange(0, i as int));
                assert(post.last() == ss@[i as int]@);
                assert(r@.map_values(|x: usize| x as int) =~= rcur.push(idx as int));
                lemma_model_extends_trans(m0, mcur, self@);
            }
            i += 1;
        }
        proof {
            assert(dv.subrange(0, dv.len() as int) =~= dv);
        }
        r
    }

    /// Registers each of the given handles, returning the canonical index
    /// of each identity in order.
    pub fn register_metas(&mut self, hs: &Vec<MetaType>) -> (r: Vec<usize>)
        requires
            old(self).wf(),
        ensures
            final(self).wf(),
            final(self)@ == register_metas_model(old(self)@, *hs, hs@.len() as int).0,
            r@.map_values(|x: usize| x as int) == register_metas_model(
                old(self)@,
                *hs,
                hs@.len() as int,
            ).1,
            model_extends(old(self)@, final(self)@),
        decreases *hs, 0int,
    {
        let ghost m0 = self@;
        let mut r: Vec<usize> = Vec::new();
        let mut i: usize = 0;
        proof {
            lemma_model_extends_refl(m0);
            assert(r@.map_values(|x: usize| x as int) =~= Seq::<int>::empty());
        }
        while i < hs.len()
            invariant
                i <= hs@.len(),
                self.wf(),
                self@ == register_metas_model(m0, *hs, i as int).0,
                r@.map_values(|x: usize| x as int) == register_metas_model(m0, *hs, i as int).1,
                model_extends(m0, self@),
            decreases hs@.len() - i,
        {
            let ghost mcur = self@;
            let ghost rcur = r@.map_values(|x: usize| x as int);
            let idx = self.register_type(&hs[i]);
            r.push(idx);
            proof {
                assert(r@.map_values(|x: usize| x as int) =~= rcur.push(idx as int));
                lemma_model_extends_trans(m0, mcur, self@);
            }
            i += 1;
        }
        r
    }

    /// Registers the type a handle stands for and returns the canonical
    /// index of its identity. On first sight the type identifier is
    /// compacted depth-first — children are interned before the parent is
    /// stored, so the table never holds a forward reference — and recorded
    /// under the identity; later sightings return the first-seen index and
    /// record nothing.
    pub fn register_type(&mut self, h: &MetaType) -> (idx: usize)
        requires
            old(self).wf(),
        ensures
            final(self).wf(),
            final(self)@ == register_meta_model(old(self)@, *h),
            idx as int == meta_index_model(old(self)@, *h),
            final(self)@.ids.contains(h.any_id),
            model_extends(old(self)@, final(self)@),
        decreases *h, 1int,
    {
        let ghost m0 = self@;
        if let Some(i) = find_id(&self.ids, h.any_id) {
            proof {
                lemma_model_extends_refl(m0);
            }
            return i;
        }
        let v = h.type_id.into_compact(self);
        let ghost m1 = self@;
        let idx = self.intern_type(h.any_id, v);
        proof {
            lemma_model_extends_trans(m0, m1, self@);
        }
        idx
    }

    /// Hands the two canonical tables out, in index order: the symbol table
    /// a serializer must emit alongside the compact graph.
    pub fn finish(self) -> (r: (Vec<String>, Vec<CompactTypeId>))
        ensures
            r.0.deep_view() == self@.strings,
            r.1@.map_values(|t: CompactTypeId| t@) == self@.types,
    {
        (self.strings, self.types)
    }
}

impl TypeId {
    /// Compacts this type identifier against the registry: every string
    /// becomes a string-table index, and every referenced type is registered
    /// and becomes a type-table index.
    pub fn into_compact(&self, registry: &mut Registry) -> (r: CompactTypeId)
        requires
            old(registry).wf(),
        ensures
            final(registry).wf(),
            final(registry)@ == compact_tid_model(old(registry)@, *self).0,
            r@ == compact_tid_model(old(registry)@, *self).1,
            model_extends(old(registry)@, final(registry)@),
        decreases *self, 0int,
    {
        match self {
            TypeId::Primitive(p) => {
                proof {
                    lemma_model_extends_refl(registry@);
                }
                CompactTypeId::Primitive { prim: *p }
            },
            TypeId::Custom(c) => c.into_compact(registry),
            TypeId::Slice(s) => s.into_compact(registry),
            TypeId::Array(a) => a.into_compact(registry),
            TypeId::Tuple(t) => t.into_compact(registry),
        }
    }
}

impl TypeIdCustom {
    /// Compacts a custom type identifier: the name, the namespace segments
    /// and each generic argument are interned, in declaration order.
    pub fn into_compact(&self, registry: &mut Registry) -> (r: CompactTypeId)
        requires
            old(registry).wf(),
        ensures
            final(registry).wf(),
            final(registry)@ == compact_custom_model(old(registry)@, *self).0,
            r@ == compact_custom_model(old(registry)@, *self).1,
            model_extends(old(registry)@, final(registry)@),
        decreases *self, 0int,
    {
        let ghost m0 = registry@;
        let name = registry.intern_string(&self.name);
        let ghost m1 = registry@;
        let namespace = registry.intern_strings(&self.namespace.segments);
        let ghost m2 = registry@;
        let type_params = registry.register_metas(&self.type_params);
        proof {
            lemma_model_extends_trans(m0, m1, m2);
            lemma_model_extends_trans(m0, m2, registry@);
        }
        CompactTypeId::Custom { name, namespace, type_params }
    }
}

impl TypeIdSlice {
    /// Compacts a slice identifier: its element type is registered and
    /// referenced by index.
    pub fn into_compact(&self, registry: &mut Registry) -> (r: CompactTypeId)
        requires
            old(registry).wf(),
        ensures
            final(registry).wf(),
            final(registry)@ == compact_slice_model(old(registry)@, *self).0,
            r@ == compact_slice_model(old(registry)@, *self).1,
            model_extends(old(registry)@, final(registry)@),
        decreases *self, 0int,
    {
        let type_param = registry.register_type(&self.type_param);
        CompactTypeId::Slice { type_param }
    }
}

impl TypeIdArray {
    /// Compacts an array identifier: its element type is registered and
    /// referenced by index; the length travels unchanged.
    pub fn into_compact(&self, registry: &mut Registry) -> (r: CompactTypeId)
        requires
            old(registry).wf(),
        ensures
            final(registry).wf(),
            final(registry)@ == compact_array_model(old(registry)@, *self).0,
            r@ == compact_array_model(old(registry)@, *self).1,
            model_extends(old(registry)@, final(registry)@),
        decreases *self, 0int,
    {
        let type_param = registry.register_type(&self.type_param);
        CompactTypeId::Array { len: self.len, type_param }
    }
}

impl TypeIdTuple {
    /// Compacts a tuple identifier: each element type is registered and
    /// referenced by index, in order.
    pub fn into_compact(&self, registry: &mut Registry) -> (r: CompactTypeId)
        requires
            old(registry).wf(),
        ensures
            final(registry).wf(),
            final(registry)@ == compact_tuple_model(old(registry)@, *self).0,
            r@ == compact_tuple_model(old(registry)@, *self).1,
            model_extends(old(registry)@, final(registry)@),
        decreases *self, 0int,
    {
        let type_params = registry.register_metas(&self.type_params);
        CompactTypeId::Tuple { type_params }
    }
}

/// The tables after compacting a type path: its name, then its namespace
/// segments.
pub open spec fn compact_path_model(m: RegistryModel, p: TypePath) -> (
    RegistryModel,
    CompactTypePathView,
) {
    let m1 = intern_string_model(m, p.name@);
    let ni = string_index_model(m, p.name@);
    let p2 = intern_strings_model(m1, p.namespace.segments.deep_view());
    (p2.0, CompactTypePathView { name: ni, namespace: p2.1 })
}

/// The tables after compacting the first `n` named fields left to right:
/// for each, its name is interned and its type registered.
pub open spec fn named_fields_model(m: RegistryModel, fs: Vec<NamedField>, n: int) -> (
    RegistryModel,
    Seq<CompactNamedFieldView>,
)
    decreases n,
{
    if n <= 0 || n > fs@.len() {
        (m, Seq::empty())
    } else {
        let prev = named_fields_model(m, fs, n - 1);
        let f = fs@[n - 1];
        let m1 = intern_string_model(prev.0, f.name@);
        let ni = string_index_model(prev.0, f.name@);
        (
            register_meta_model(m1, f.ty),
            prev.1.push(CompactNamedFieldView { name: ni, ty: meta_index_model(m1, f.ty) }),
        )
    }
}

/// The tables after compacting the first `n` positional fields left to
/// right: each type is registered and referenced by index.
pub open spec fn unnamed_fields_model(m: RegistryModel, fs: Vec<UnnamedField>, n: int) -> (
    RegistryModel,
    Seq<int>,
)
    decreases n,
{
    if n <= 0 || n > fs@.len() {
        (m, Seq::empty())
    } else {
        let prev = unnamed_fields_model(m, fs, n - 1);
        let f = fs@[n - 1];
        (register_meta_model(prev.0, f.ty), prev.1.push(meta_index_model(prev.0, f.ty)))
    }
}

/// The tables after compacting one enumeration variant: its name is
/// interned; the discriminant travels unchanged.
pub open spec fn clike_variant_model(m: RegistryModel, v: ClikeEnumVariant) -> (
    RegistryModel,
    CompactClikeEnumVariantView,
) {
    (
        intern_string_model(m, v.name@),
        CompactClikeEnumVariantView {
            name: string_index_model(m, v.name@),
            discriminant: v.discriminant,
        },
    )
}

/// The tables after compacting the first `n` enumeration variants left to
/// right.
pub open spec fn clike_variants_model(m: RegistryModel, vs: Vec<ClikeEnumVariant>, n: int) -> (
    RegistryModel,
    Seq<CompactClikeEnumVariantView>,
)
    decreases n,
{
    if n <= 0 || n > vs@.len() {
        (m, Seq::empty())
    } else {
        let prev = clike_variants_model(m, vs, n - 1);
        let step = clike_variant_model(prev.0, vs@[n - 1]);
        (step.0, prev.1.push(step.1))
    }
}

/// The tables after compacting one unit variant.
pub open spec fn variant_unit_model(m: RegistryModel, v: EnumVariantUnit) -> (
    RegistryModel,
    CompactEnumVariantView,
) {
    (
        intern_string_model(m, v.name@),
        CompactEnumVariantView::Unit { name: string_index_model(m, v.name@) },
    )
}

/// The tables after compacting one struct variant: its name, then its named
/// fields in declaration order.
pub open spec fn variant_struct_model(m: RegistryModel, v: EnumVariantStruct) -> (
    RegistryModel,
    CompactEnumVariantView,
) {
    let m1 = intern_string_model(m, v.name@);
    let ni = string_index_model(m, v.name@);
    let p2 = named_fields_model(m1, v.fields, v.fields@.len() as int);
    (p2.0, CompactEnumVariantView::Struct { name: ni, fields: p2.1 })
}

/// The tables after compacting one tuple-struct variant: its name, then its
/// positional fields in declaration order.
pub open spec fn variant_tuple_struct_model(m: RegistryModel, v: EnumVariantTupleStruct) -> (
    RegistryModel,
    CompactEnumVariantView,
) {
    let m1 = intern_string_model(m, v.name@);
    let ni = string_index_model(m, v.name@);
    let p2 = unnamed_fields_model(m1, v.fields, v.fields@.len() as int);
    (p2.0, CompactEnumVariantView::TupleStruct { name: ni, fields: p2.1 })
}

/// The tables after compacting one tagged-union variant.
pub open spec fn variant_model(m: RegistryModel, v: EnumVariant) -> (
    RegistryModel,
    CompactEnumVariantView,
) {
    match v {
        EnumVariant::Unit(u) => variant_unit_model(m, u),
        EnumVariant::Struct(s) => variant_struct_model(m, s),
        EnumVariant::TupleStruct(t) => variant_tuple_struct_model(m, t),
    }
}

/// The tables after compacting the first `n` tagged-union variants left to
/// right.
pub open spec fn variants_model(m: RegistryModel, vs: Vec<EnumVariant>, n: int) -> (
    RegistryModel,
    Seq<CompactEnumVariantView>,
)
    decreases n,
{
    if n <= 0 || n > vs@.len() {
        (m, Seq::empty())
    } else {
        let prev = variants_model(m, vs, n - 1);
        let step = variant_model(prev.0, vs@[n - 1]);
        (step.0, prev.1.push(step.1))
    }
}

/// The tables after compacting a record definition.
pub open spec fn struct_model(m: RegistryModel, d: TypeDefStruct) -> (
    RegistryModel,
    CompactTypeDefView,
) {
    let p1 = compact_path_model(m, d.path);
    let p2 = named_fields_model(p1.0, d.fields, d.fields@.len() as int);
    (p2.0, CompactTypeDefView::Struct { path: p1.1, fields: p2.1 })
}

/// The tables after compacting a tuple-struct definition.
pub open spec fn tuple_struct_model(m: RegistryModel, d: TypeDefTupleStruct) -> (
    RegistryModel,
    CompactTypeDefView,
) {
    let p1 = compact_path_model(m, d.path);
    let p2 = unnamed_fields_model(p1.0, d.fields, d.fields@.len() as int);
    (p2.0, CompactTypeDefView::TupleStruct { path: p1.1, fields: p2.1 })
}

/// The tables after compacting an enumeration definition.
pub open spec fn clike_enum_model(m: RegistryModel, d: TypeSumClikeEnum) -> (
    RegistryModel,
    CompactTypeDefView,
) {
    let p1 = compact_path_model(m, d.path);
    let p2 = clike_variants_model(p1.0, d.variants, d.variants@.len() as int);
    (p2.0, CompactTypeDefView::ClikeEnum { path: p1.1, variants: p2.1 })
}

/// The tables after compacting a tagged-union definition.
pub open spec fn enum_model(m: RegistryModel, d: TypeSumEnum) -> (
    RegistryModel,
    CompactTypeDefView,
) {
    let p1 = compact_path_model(m, d.path);
    let p2 = variants_model(p1.0, d.variants, d.variants@.len() as int);
    (p2.0, CompactTypeDefView::Enum { path: p1.1, variants: p2.1 })
}

/// The tables after compacting a sum definition.
pub open spec fn sum_model(m: RegistryModel, d: TypeSum) -> (RegistryModel, CompactTypeDefView) {
    match d {
        TypeSum::ClikeEnum(ce) => clike_enum_model(m, ce),
        TypeSum::Enum(e) => enum_model(m, e),
    }
}

/// The tables after compacting a type definition.
pub open spec fn compact_def_model(m: RegistryModel, d: TypeDef) -> (
    RegistryModel,
    CompactTypeDefView,
) {
    match d {
        TypeDef::Builtin => (m, CompactTypeDefView::Builtin),
        TypeDef::Struct(sd) => struct_model(m, sd),
        TypeDef::TupleStruct(td) => tuple_struct_model(m, td),
        TypeDef::Sum(s) => sum_model(m, s),
    }
}

impl Registry {
    /// Compacts a sequence of named fields, in declaration order.
    pub fn compact_named_fields(&mut self, fs: &Vec<NamedField>) -> (r: Vec<CompactNamedField>)
        requires
            old(self).wf(),
        ensures
            final(self).wf(),
            final(self)@ == named_fields_model(old(self)@, *fs, fs@.len() as int).0,
            r@.map_values(|f: CompactNamedField| f@) == named_fields_model(
                old(self)@,
                *fs,
                fs@.len() as int,
            ).1,
            model_extends(old(self)@, final(self)@),
    {
        let ghost m0 = self@;
        let mut r: Vec<CompactNamedField> = Vec::new();
        let mut i: usize = 0;
        proof {
            lemma_model_extends_refl(m0);
            assert(r@.map_values(|f: CompactNamedField| f@) =~= Seq::<
                CompactNamedFieldView,
            >::empty());
        }
        while i < fs.len()
            invariant
                i <= fs@.len(),
                self.wf(),
                self@ == named_fields_model(m0, *fs, i as int).0,
                r@.map_values(|f: CompactNamedField| f@) == named_fields_model(m0, *fs, i as int).1,
                model_extends(m0, self@),
            decreases fs@.len() - i,
        {
            let ghost mcur = self@;
            let ghost rcur = r@.map_values(|f: CompactNamedField| f@);
            let name = self.intern_string(&fs[i].name);
            let ty = self.register_type(&fs[i].ty);
            r.push(CompactNamedField { name, ty });
            proof {
                assert(r@.map_values(|f: CompactNamedField| f@) =~= rcur.push(
                    CompactNamedFieldView { name: name as int, ty: ty as int },
                ));
                lemma_model_extends_trans(m0, mcur, self@);
            }
            i += 1;
        }
        r
    }

    /// Compacts a sequence of positional fields, in declaration order.
    pub fn compact_unnamed_fields(&mut self, fs: &Vec<UnnamedField>) -> (r: Vec<usize>)
        requires
            old(self).wf(),
        ensures
            final(self).wf(),
            final(self)@ == unnamed_fields_model(old(self)@, *fs, fs@.len() as int).0,
            r@.map_values(|x: usize| x as int) == unnamed_fields_model(
                old(self)@,
                *fs,
                fs@.len() as int,
            ).1,
            model_extends(old(self)@, final(self)@),
    {
        let ghost m0 = self@;
        let mut r: Vec<usize> = Vec::new();
        let mut i: usize = 0;
        proof {
            lemma_model_extends_refl(m0);
            assert(r@.map_values(|x: usize| x as int) =~= Seq::<int>::empty());
        }
        while i < fs.len()
            invariant
                i <= fs@.len(),
                self.wf(),
                self@ == unnamed_fields_model(m0, *fs, i as int).0,
                r@.map_values(|x: usize| x as int) == unnamed_fields_model(m0, *fs, i as int).1,
                model_extends(m0, self@),
            decreases fs@.len() - i,
        {
            let ghost mcur = self@;
            let ghost rcur = r@.map_values(|x: usize| x as int);
            let ty = self.register_type(&fs[i].ty);
            r.push(ty);
            proof {
                assert(r@.map_values(|x: usize| x as int) =~= rcur.push(ty as int));
                lemma_model_extends_trans(m0, mcur, self@);
            }
            i += 1;
        }
        r
    }

    /// Compacts a sequence of enumeration variants, in declaration order.
    pub fn compact_clike_variants(&mut self, vs: &Vec<ClikeEnumVariant>) -> (r: Vec<
        CompactClikeEnumVariant,
    >)
        requires
            old(self).wf(),
        ensures
            final(self).wf(),
            final(self)@ == clike_variants_model(old(self)@, *vs, vs@.len() as int).0,
            r@.map_values(|v: CompactClikeEnumVariant| v@) == clike_variants_model(
                old(self)@,
                *vs,
                vs@.len() as int,
            ).1,
            model_extends(old(self)@, final(self)@),
    {
        let ghost m0 = self@;
        let mut r: Vec<CompactClikeEnumVariant> = Vec::new();
        let mut i: usize = 0;
        proof {
            lemma_model_extends_refl(m0);
            assert(r@.map_values(|v: CompactClikeEnumVariant| v@) =~= Seq::<
                CompactClikeEnumVariantView,
            >::empty());
        }
        while i < vs.len()
            invariant
                i <= vs@.len(),
                self.wf(),
                self@ == clike_variants_model(m0, *vs, i as int).0,
                r@.map_values(|v: CompactClikeEnumVariant| v@) == clike_variants_model(
                    m0,
                    *vs,
                    i as int,
                ).1,
                model_extends(m0, self@),
            decreases vs@.len() - i,
        {
            let ghost mcur = self@;
            let ghost rcur = r@.map_values(|v: CompactClikeEnumVariant| v@);
            let cv = vs[i].into_compact(self);
            r.push(cv);
            proof {
                assert(r@.map_values(|v: CompactClikeEnumVariant| v@) =~= rcur.push(cv@));
                lemma_model_extends_trans(m0, mcur, self@);
            }
            i += 1;
        }
        r
    }

    /// Compacts a sequence of tagged-union variants, in declaration order.
    pub fn compact_variants(&mut self, vs: &Vec<EnumVariant>) -> (r: Vec<CompactEnumVariant>)
        requires
            old(self).wf(),
        ensures
            final(self).wf(),
            final(self)@ == variants_model(old(self)@, *vs, vs@.len() as int).0,
            r@.map_values(|v: CompactEnumVariant| v@) == variants_model(
                old(self)@,
                *vs,
                vs@.len() as int,
            ).1,
            model_extends(old(self)@, final(self)@),
    {
        let ghost m0 = self@;
        let mut r: Vec<CompactEnumVariant> = Vec::new();
        let mut i: usize = 0;
        proof {
            lemma_model_extends_refl(m0);
            assert(r@.map_values(|v: CompactEnumVariant| v@) =~= Seq::<
                CompactEnumVariantView,
            >::empty());
        }
        while i < vs.len()
            invariant
                i <= vs@.len(),
                self.wf(),
                self@ == variants_model(m0, *vs, i as int).0,
                r@.map_values(|v: CompactEnumVariant| v@) == variants_model(m0, *vs, i as int).1,
                model_extends(m0, self@),
            decreases vs@.len() - i,
        {
            let ghost mcur = self@;
            let ghost rcur = r@.map_values(|v: CompactEnumVariant| v@);
            let cv = vs[i].into_compact(self);
            r.push(cv);
            proof {
                assert(r@.map_values(|v: CompactEnumVariant| v@) =~= rcur.push(cv@));
                lemma_model_extends_trans(m0, mcur, self@);
            }
            i += 1;
        }
        r
    }
}

impl TypePath {
    /// Compacts a type path: its name and its namespace segments are
    /// interned.
    pub fn into_compact(&self, registry: &mut Registry) -> (r: CompactTypePath)
        requires
            old(registry).wf(),
        ensures
            final(registry).wf(),
            final(registry)@ == compact_path_model(old(registry)@, *self).0,
            r@ == compact_path_model(old(registry)@, *self).1,
            model_extends(old(registry)@, final(registry)@),
    {
        let ghost m0 = registry@;
        let name = registry.intern_string(&self.name);
        let ghost m1 = registry@;
        let namespace = registry.intern_strings(&self.namespace.segments);
        proof {
            lemma_model_extends_trans(m0, m1, registry@);
        }
        CompactTypePath { name, namespace }
    }
}

impl NamedField {
    /// Compacts a named field: its name is interned, its type registered.
    pub fn into_compact(&self, registry: &mut Registry) -> (r: CompactNamedField)
        requires
            old(registry).wf(),
        ensures
            final(registry).wf(),
            ({
                let m1 = intern_string_model(old(registry)@, self.name@);
                &&& final(registry)@ == register_meta_model(m1, self.ty)
                &&& r@ == (CompactNamedFieldView {
                    name: string_index_model(old(registry)@, self.name@),
                    ty: meta_index_model(m1, self.ty),
                })
            }),
            model_extends(old(registry)@, final(registry)@),
    {
        let ghost m0 = registry@;
        let name = registry.intern_string(&self.name);
        let ghost m1 = registry@;
        let ty = registry.register_type(&self.ty);
        proof {
            lemma_model_extends_trans(m0, m1, registry@);
        }
        CompactNamedField { name, ty }
    }
}

impl UnnamedField {
    /// Compacts a positional field: its type is registered and referenced
    /// by index.
    pub fn into_compact(&self, registry: &mut Registry) -> (r: usize)
        requires
            old(registry).wf(),
        ensures
            final(registry).wf(),
            final(registry)@ == register_meta_model(old(registry)@, self.ty),
            r as int == meta_index_model(old(registry)@, self.ty),
            model_extends(old(registry)@, final(registry)@),
    {
        registry.register_type(&self.ty)
    }
}

impl ClikeEnumVariant {
    /// Compacts an enumeration variant: its name is interned; the
    /// discriminant travels unchanged.
    pub fn into_compact(&self, registry: &mut Registry) -> (r: CompactClikeEnumVariant)
        requires
            old(registry).wf(),
        ensures
            final(registry).wf(),
            final(registry)@ == clike_variant_model(old(registry)@, *self).0,
            r@ == clike_variant_model(old(registry)@, *self).1,
            model_extends(old(registry)@, final(registry)@),
    {
        let name = registry.intern_string(&self.name);
        CompactClikeEnumVariant { name, discriminant: self.discriminant }
    }
}

impl EnumVariantUnit {
    /// Compacts a unit variant: its name is interned.
    pub fn into_compact(&self, registry: &mut Registry) -> (r: CompactEnumVariant)
        requires
            old(registry).wf(),
        ensures
            final(registry).wf(),
            final(registry)@ == variant_unit_model(old(registry)@, *self).0,
            r@ == variant_unit_model(old(registry)@, *self).1,
            model_extends(old(registry)@, final(registry)@),
    {
        let name = registry.intern_string(&self.name);
        CompactEnumVariant::Unit { name }
    }
}

impl EnumVariantStruct {
    /// Compacts a struct variant: its name, then its named fields in
    /// declaration order.
    pub fn into_compact(&self, registry: &mut Registry) -> (r: CompactEnumVariant)
        requires
            old(registry).wf(),
        ensures
            final(registry).wf(),
            final(registry)@ == variant_struct_model(old(registry)@, *self).0,
            r@ == variant_struct_model(old(registry)@, *self).1,
            model_extends(old(registry)@, final(registry)@),
    {
        let ghost m0 = registry@;
        let name = registry.intern_string(&self.name);
        let ghost m1 = registry@;
        let fields = registry.compact_named_fields(&self.fields);
        proof {
            lemma_model_extends_trans(m0, m1, registry@);
        }
        CompactEnumVariant::Struct { name, fields }
    }
}

impl EnumVariantTupleStruct {
    /// Compacts a tuple-struct variant: its name, then its positional
    /// fields in declaration order.
    pub fn into_compact(&self, registry: &mut Registry) -> (r: CompactEnumVariant)
        requires
            old(registry).wf(),
        ensures
            final(registry).wf(),
            final(registry)@ == variant_tuple_struct_model(old(registry)@, *self).0,
            r@ == variant_tuple_struct_model(old(registry)@, *self).1,
            model_extends(old(registry)@, final(registry)@),
    {
        let ghost m0 = registry@;
        let name = registry.intern_string(&self.name);
        let ghost m1 = registry@;
        let fields = registry.compact_unnamed_fields(&self.fields);
        proof {
            lemma_model_extends_trans(m0, m1, registry@);
        }
        CompactEnumVariant::TupleStruct { name, fields }
    }
}

impl EnumVariant {
    /// Compacts a tagged-union variant.
    pub fn into_compact(&self, registry: &mut Registry) -> (r: CompactEnumVariant)
        requires
            old(registry).wf(),
        ensures
            final(registry).wf(),
            final(registry)@ == variant_model(old(registry)@, *self).0,
            r@ == variant_model(old(registry)@, *self).1,
            model_extends(old(registry)@, final(registry)@),
    {
        match self {
            EnumVariant::Unit(u) => u.into_compact(registry),
            EnumVariant::Struct(s) => s.into_compact(registry),
            EnumVariant::TupleStruct(t) => t.into_compact(registry),
        }
    }
}

impl TypeSumClikeEnum {
    /// Compacts an enumeration definition: its path, then its variants in
    /// declaration order.
    pub fn into_compact(&self, registry: &mut Registry) -> (r: CompactTypeDef)
        requires
            old(registry).wf(),
        ensures
            final(registry).wf(),
            final(registry)@ == clike_enum_model(old(registry)@, *self).0,
            r@ == clike_enum_model(old(registry)@, *self).1,
            model_extends(old(registry)@, final(registry)@),
    {
        let ghost m0 = registry@;
        let path = self.path.into_compact(registry);
        let ghost m1 = registry@;
        let variants = registry.compact_clike_variants(&self.variants);
        proof {
            lemma_model_extends_trans(m0, m1, registry@);
        }
        CompactTypeDef::ClikeEnum { path, variants }
    }
}

impl TypeSumEnum {
    /// Compacts a tagged-union definition: its path, then its variants in
    /// declaration order.
    pub fn into_compact(&self, registry: &mut Registry) -> (r: CompactTypeDef)
        requires
            old(registry).wf(),
        ensures
            final(registry).wf(),
            final(registry)@ == enum_model(old(registry)@, *self).0,
            r@ == enum_model(old(registry)@, *self).1,
            model_extends(old(registry)@, final(registry)@),
    {
        let ghost m0 = registry@;
        let path = self.path.into_compact(registry);
        let ghost m1 = registry@;
        let variants = registry.compact_variants(&self.variants);
        proof {
            lemma_model_extends_trans(m0, m1, registry@);
        }
        CompactTypeDef::Enum { path, variants }
    }
}

impl TypeSum {
    /// Compacts a sum definition.
    pub fn into_compact(&self, registry: &mut Registry) -> (r: CompactTypeDef)
        requires
            old(registry).wf(),
        ensures
            final(registry).wf(),
            final(registry)@ == sum_model(old(registry)@, *self).0,
            r@ == sum_model(old(registry)@, *self).1,
            model_extends(old(registry)@, final(registry)@),
    {
        match self {
            TypeSum::ClikeEnum(ce) => ce.into_compact(registry),
            TypeSum::Enum(e) => e.into_compact(registry),
        }
    }
}

impl TypeDefStruct {
    /// Compacts a record definition: its path, then its fields in
    /// declaration order.
    pub fn into_compact(&self, registry: &mut Registry) -> (r: CompactTypeDef)
        requires
            old(registry).wf(),
        ensures
            final(registry).wf(),
            final(registry)@ == struct_model(old(registry)@, *self).0,
            r@ == struct_model(old(registry)@, *self).1,
            model_extends(old(registry)@, final(registry)@),
    {
        let ghost m0 = registry@;
        let path = self.path.into_compact(registry);
        let ghost m1 = registry@;
        let fields = registry.compact_named_fields(&self.fields);
        proof {
            lemma_model_extends_trans(m0, m1, registry@);
        }
        CompactTypeDef::Struct { path, fields }
    }
}

impl TypeDefTupleStruct {
    /// Compacts a tuple-struct definition: its path, then its fields in
    /// declaration order.
    pub fn into_compact(&self, registry: &mut Registry) -> (r: CompactTypeDef)
        requires
            old(registry).wf(),
        ensures
            final(registry).wf(),
            final(registry)@ == tuple_struct_model(old(registry)@, *self).0,
            r@ == tuple_struct_model(old(registry)@, *self).1,
            model_extends(old(registry)@, final(registry)@),
    {
        let ghost m0 = registry@;
        let path = self.path.into_compact(registry);
        let ghost m1 = registry@;
        let fields = registry.compact_unnamed_fields(&self.fields);
        proof {
            lemma_model_extends_trans(m0, m1, registry@);
        }
        CompactTypeDef::TupleStruct { path, fields }
    }
}

impl TypeDef {
    /// Compacts a type definition: every string becomes a string-table
    /// index, and every field type is registered and becomes a type-table
    /// index.
    pub fn into_compact(&self, registry: &mut Registry) -> (r: CompactTypeDef)
        requires
            old(registry).wf(),
        ensures
            final(registry).wf(),
            final(registry)@ == compact_def_model(old(registry)@, *self).0,
            r@ == compact_def_model(old(registry)@, *self).1,
            model_extends(old(registry)@, final(registry)@),
    {
        match self {
            TypeDef::Builtin => {
                proof {
                    lemma_model_extends_refl(registry@);
                }
                CompactTypeDef::Builtin
            },
            TypeDef::Struct(sd) => sd.into_compact(registry),
            TypeDef::TupleStruct(td) => td.into_compact(registry),
            TypeDef::Sum(s) => s.into_compact(registry),
        }
    }
}

/// Interning a string only appends, keeps the tables well formed, and lands
/// the string at its canonical index.
pub proof fn lemma_intern_string_model_props(m: RegistryModel, s: Seq<char>)
    ensures
        model_extends(m, intern_string_model(m, s)),
        model_wf(m) ==> model_wf(intern_string_model(m, s)),
        intern_string_model(m, s).strings.contains(s),
        0 <= string_index_model(m, s) < intern_string_model(m, s).strings.len(),
        intern_string_model(m, s).strings[string_index_model(m, s)] == s,
        intern_string_model(m, s).ids == m.ids,
        intern_string_model(m, s).types == m.types,
{
    let m1 = intern_string_model(m, s);
    if m.strings.contains(s) {
        lemma_model_extends_refl(m);
        lemma_first_index_of_contains(m.strings, s);
    } else {
        assert(m1.strings[m.strings.len() as int] == s);
        lemma_first_index_of_push(m.strings, s);
        assert(m.strings.is_prefix_of(m1.strings)) by {
            assert(m1.strings.subrange(0, m.strings.len() as int) =~= m.strings);
        }
        lemma_model_extends_refl(m);
        if model_wf(m) {
            assert forall|a: int, b: int|
                0 <= a < b < m1.strings.len() implies m1.strings[a] != m1.strings[b] by {
                if b < m.strings.len() {
                } else {
                    assert(m1.strings[a] == m.strings[a]);
                }
            }
        }
    }
}

/// Interning a type identity only appends, keeps the tables well formed,
/// and lands the identity at its canonical index.
pub proof fn lemma_intern_type_model_props(m: RegistryModel, id: u64, v: CompactTypeIdView)
    ensures
        model_extends(m, intern_type_model(m, id, v)),
        model_wf(m) ==> model_wf(intern_type_model(m, id, v)),
        intern_type_model(m, id, v).ids.contains(id),
        0 <= type_index_model(m, id, v) < intern_type_model(m, id, v).ids.len(),
        intern_type_model(m, id, v).ids[type_index_model(m, id, v)] == id,
{
    let m1 = intern_type_model(m, id, v);
    if m.ids.contains(id) {
        lemma_model_extends_refl(m);
        lemma_first_index_of_contains(m.ids, id);
    } else {
        assert(m1.ids[m.ids.len() as int] == id);
        lemma_first_index_of_push(m.ids, id);
        assert(m.ids.is_prefix_of(m1.ids)) by {
            assert(m1.ids.subrange(0, m.ids.len() as int) =~= m.ids);
        }
        assert(m.types.is_prefix_of(m1.types)) by {
            assert(m1.types.subrange(0, m.types.len() as int) =~= m.types);
        }
        lemma_model_extends_refl(m);
        if model_wf(m) {
            assert forall|a: int, b: int|
                0 <= a < b < m1.ids.len() implies m1.ids[a] != m1.ids[b] by {
                if b < m.ids.len() {
                } else {
                    assert(m1.ids[a] == m.ids[a]);
                }
            }
        }
    }
}

/// Interning a sequence of strings only appends and keeps the tables well
/// formed.
pub proof fn lemma_intern_strings_model_props(m: RegistryModel, ss: Seq<Seq<char>>)
    ensures
        model_extends(m, intern_strings_model(m, ss).0),
        model_wf(m) ==> model_wf(intern_strings_model(m, ss).0),
        intern_strings_model(m, ss).0.ids == m.ids,
        intern_strings_model(m, ss).0.types == m.types,
        intern_strings_model(m, ss).1.len() == ss.len(),
        forall|j: int|
            0 <= j < ss.len() ==> 0 <= #[trigger] intern_strings_model(m, ss).1[j]
                < intern_strings_model(m, ss).0.strings.len(),
    decreases ss.len(),
{
    if ss.len() == 0 {
        lemma_model_extends_refl(m);
    } else {
        lemma_intern_strings_model_props(m, ss.drop_last());
        let m1 = intern_strings_model(m, ss.drop_last()).0;
        lemma_intern_string_model_props(m1, ss.last());
        lemma_model_extends_trans(m, m1, intern_string_model(m1, ss.last()));
    }
}

/// Compacting a type identifier only appends to the tables and keeps them
/// well formed.
pub proof fn lemma_compact_tid_model_props(m: RegistryModel, t: TypeId)
    ensures
        model_extends(m, compact_tid_model(m, t).0),
        model_wf(m) ==> model_wf(compact_tid_model(m, t).0),
    decreases t, 0int,
{
    match t {
        TypeId::Primitive(p) => {
            lemma_model_extends_refl(m);
        },
        TypeId::Custom(c) => {
            let m1 = intern_string_model(m, c.name@);
            lemma_intern_string_model_props(m, c.name@);
            let m2 = intern_strings_model(m1, c.namespace.segments.deep_view()).0;
            lemma_intern_strings_model_props(m1, c.namespace.segments.deep_view());
            lemma_register_metas_model_props(m2, c.type_params, c.type_params@.len() as int);
            lemma_model_extends_trans(m, m1, m2);
            lemma_model_extends_trans(
                m,
                m2,
                register_metas_model(m2, c.type_params, c.type_params@.len() as int).0,
            );
        },
        TypeId::Slice(s) => {
            lemma_register_meta_model_props(m, s.type_param);
        },
        TypeId::Array(a) => {
            lemma_register_meta_model_props(m, a.type_param);
        },
        TypeId::Tuple(tu) => {
            lemma_register_metas_model_props(m, tu.type_params, tu.type_params@.len() as int);
        },
    }
}

/// Registering a sequence of handles only appends to the tables and keeps
/// them well formed.
pub proof fn lemma_register_metas_model_props(m: RegistryModel, hs: Vec<MetaType>, n: int)
    ensures
        model_extends(m, register_metas_model(m, hs, n).0),
        model_wf(m) ==> model_wf(register_metas_model(m, hs, n).0),
        register_metas_model(m, hs, n).1.len() == (if n <= 0 || n > hs@.len() {
            0int
        } else {
            n
        }),
        forall|j: int|
            0 <= j < register_metas_model(m, hs, n).1.len() ==> 0 <= #[trigger] register_metas_model(
                m,
                hs,
                n,
            ).1[j] < register_metas_model(m, hs, n).0.ids.len(),
    decreases hs, n,
{
    if n <= 0 || n > hs@.len() {
        lemma_model_extends_refl(m);
    } else {
        lemma_register_metas_model_props(m, hs, n - 1);
        let m1 = register_metas_model(m, hs, n - 1).0;
        lemma_register_meta_model_props(m1, hs@[n - 1]);
        lemma_model_extends_trans(m, m1, register_meta_model(m1, hs@[n - 1]));
    }
}

/// Registering a handle only appends to the tables, keeps them well formed,
/// and lands the handle's identity at its canonical index.
pub proof fn lemma_register_meta_model_props(m: RegistryModel, h: MetaType)
    ensures
        model_extends(m, register_meta_model(m, h)),
        model_wf(m) ==> model_wf(register_meta_model(m, h)),
        register_meta_model(m, h).ids.contains(h.any_id),
        0 <= meta_index_model(m, h) < register_meta_model(m, h).ids.len(),
        register_meta_model(m, h).ids[meta_index_model(m, h)] == h.any_id,
    decreases h, 1int,
{
    if m.ids.contains(h.any_id) {
        lemma_model_extends_refl(m);
        lemma_first_index_of_contains(m.ids, h.any_id);
    } else {
        lemma_compact_tid_model_props(m, *h.type_id);
        let p = compact_tid_model(m, *h.type_id);
        lemma_intern_type_model_props(p.0, h.any_id, p.1);
        lemma_model_extends_trans(m, p.0, intern_type_model(p.0, h.any_id, p.1));
    }
}

/// A contained identity keeps its canonical index when the registry grows.
pub proof fn lemma_meta_index_stable(m0: RegistryModel, m1: RegistryModel, h: MetaType)
    requires
        m0.ids.contains(h.any_id),
        model_extends(m0, m1),
    ensures
        m1.ids.contains(h.any_id),
        register_meta_model(m1, h) == m1,
        meta_index_model(m1, h) == first_index_of(m0.ids, h.any_id),
{
    lemma_first_index_of_extend(m0.ids, m1.ids, h.any_id);
}

/// Interning deduplicates: registering a handle whose identity the registry
/// already holds returns the first-seen canonical index and changes no
/// table; and a well-formed registry holds at most one entry per identity,
/// however many times the identity occurs in the input graph.
pub proof fn lemma_register_type_deduplicates(m: RegistryModel, h: MetaType)
    requires
        model_wf(m),
    ensures
        ({
            let m1 = register_meta_model(m, h);
            &&& register_meta_model(m1, h) == m1
            &&& meta_index_model(m1, h) == meta_index_model(m, h)
            &&& forall|i: int, j: int| 0 <= i < j < m1.ids.len() ==> m1.ids[i] != m1.ids[j]
        }),
{
    lemma_register_meta_model_props(m, h);
}

/// Compaction is deterministic: from equal tables, the same input graph
/// compacts to equal tables and an equal canonical index. The model
/// functions are functions of the starting tables and the input alone, so
/// two passes over the same graph from fresh registries agree index by
/// index.
pub proof fn lemma_compaction_deterministic(m0: RegistryModel, m1: RegistryModel, h: MetaType)
    requires
        m0 == m1,
    ensures
        register_meta_model(m0, h) == register_meta_model(m1, h),
        meta_index_model(m0, h) == meta_index_model(m1, h),
{
}

/// Compacting named fields maps every field whose type carries an already
/// registered identity to that identity's canonical index.
pub proof fn lemma_named_fields_reference_index(
    m: RegistryModel,
    fs: Vec<NamedField>,
    n: int,
    id: u64,
)
    requires
        m.ids.contains(id),
        0 <= n <= fs@.len(),
    ensures
        ({
            let p = named_fields_model(m, fs, n);
            &&& p.1.len() == n
            &&& model_extends(m, p.0)
            &&& forall|k: int|
                0 <= k < n && fs@[k].ty.any_id == id ==> (#[trigger] p.1[k]).ty == first_index_of(
                    m.ids,
                    id,
                )
        }),
    decreases n,
{
    if n <= 0 {
        lemma_model_extends_refl(m);
    } else {
        lemma_named_fields_reference_index(m, fs, n - 1, id);
        let prev = named_fields_model(m, fs, n - 1);
        let f = fs@[n - 1];
        let m1 = intern_string_model(prev.0, f.name@);
        lemma_intern_string_model_props(prev.0, f.name@);
        lemma_register_meta_model_props(m1, f.ty);
        lemma_model_extends_trans(m, prev.0, m1);
        lemma_model_extends_trans(m, m1, register_meta_model(m1, f.ty));
        if f.ty.any_id == id {
            lemma_meta_index_stable(m, m1, f.ty);
        }
    }
}

/// Every reference inside a compact type identifier falls below the given
/// bounds: string indices below `ns`, type indices below `nt`.
pub open spec fn tid_refs_below(v: CompactTypeIdView, ns: int, nt: int) -> bool {
    match v {
        CompactTypeIdView::Primitive { prim } => true,
        CompactTypeIdView::Custom { name, namespace, type_params } => {
            &&& 0 <= name < ns
            &&& forall|j: int| 0 <= j < namespace.len() ==> 0 <= #[trigger] namespace[j] < ns
            &&& forall|j: int| 0 <= j < type_params.len() ==> 0 <= #[trigger] type_params[j] < nt
        },
        CompactTypeIdView::Slice { type_param } => 0 <= type_param < nt,
        CompactTypeIdView::Array { len, type_param } => 0 <= type_param < nt,
        CompactTypeIdView::Tuple { type_params } => forall|j: int|
            0 <= j < type_params.len() ==> 0 <= #[trigger] type_params[j] < nt,
    }
}

/// No forward references: every entry of the type table points only at
/// strings of the string table and at type entries recorded before it.
pub open spec fn model_closed(m: RegistryModel) -> bool {
    forall|i: int|
        0 <= i < m.types.len() ==> tid_refs_below(
            #[trigger] m.types[i],
            m.strings.len() as int,
            i,
        )
}

/// Reference bounds stay satisfied as the tables grow.
pub proof fn lemma_refs_below_monotone(
    v: CompactTypeIdView,
    ns0: int,
    nt0: int,
    ns1: int,
    nt1: int,
)
    requires
        tid_refs_below(v, ns0, nt0),
        ns0 <= ns1,
        nt0 <= nt1,
    ensures
        tid_refs_below(v, ns1, nt1),
{
}

/// Growing only the string table cannot introduce a forward reference.
pub proof fn lemma_closed_strings_grow(m0: RegistryModel, m1: RegistryModel)
    requires
        model_closed(m0),
        m0.strings.is_prefix_of(m1.strings),
        m1.ids == m0.ids,
        m1.types == m0.types,
    ensures
        model_closed(m1),
{
    assert forall|i: int|
        0 <= i < m1.types.len() implies tid_refs_below(
        #[trigger] m1.types[i],
        m1.strings.len() as int,
        i,
    ) by {
        lemma_refs_below_monotone(
            m0.types[i],
            m0.strings.len() as int,
            i,
            m1.strings.len() as int,
            i,
        );
    }
}

/// Interning a type whose references lie within the current tables keeps
/// the table free of forward references.
pub proof fn lemma_closed_intern_type(m: RegistryModel, id: u64, v: CompactTypeIdView)
    requires
        model_closed(m),
        tid_refs_below(v, m.strings.len() as int, m.types.len() as int),
    ensures
        model_closed(intern_type_model(m, id, v)),
{
    let m1 = intern_type_model(m, id, v);
    if !m.ids.contains(id) {
        assert forall|i: int|
            0 <= i < m1.types.len() implies tid_refs_below(
            #[trigger] m1.types[i],
            m1.strings.len() as int,
            i,
        ) by {
            if i < m.types.len() {
                assert(m1.types[i] == m.types[i]);
            } else {
                assert(m1.types[i] == v);
            }
        }
    }
}

/// Compacting a type identifier keeps the tables free of forward
/// references, and the compact image it produces references only entries of
/// the tables as they stand afterwards.
pub proof fn lemma_compact_tid_model_closed(m: RegistryModel, t: TypeId)
    requires
        model_wf(m),
        model_closed(m),
    ensures
        model_closed(compact_tid_model(m, t).0),
        tid_refs_below(
            compact_tid_model(m, t).1,
            compact_tid_model(m, t).0.strings.len() as int,
            compact_tid_model(m, t).0.types.len() as int,
        ),
    decreases t, 0int,
{
    match t {
        TypeId::Primitive(p) => {
        },
        TypeId::Custom(c) => {
            let m1 = intern_string_model(m, c.name@);
            lemma_intern_string_model_props(m, c.name@);
            lemma_closed_strings_grow(m, m1);
            let dv = c.namespace.segments.deep_view();
            let p2 = intern_strings_model(m1, dv);
            lemma_intern_strings_model_props(m1, dv);
            lemma_closed_strings_grow(m1, p2.0);
            let p3 = register_metas_model(p2.0, c.type_params, c.type_params@.len() as int);
            lemma_register_metas_model_props(p2.0, c.type_params, c.type_params@.len() as int);
            lemma_register_metas_model_closed(p2.0, c.type_params, c.type_params@.len() as int);
            assert(model_wf(p3.0));
        },
        TypeId::Slice(s) => {
            lemma_register_meta_model_props(m, s.type_param);
            lemma_register_meta_model_closed(m, s.type_param);
        },
        TypeId::Array(a) => {
            lemma_register_meta_model_props(m, a.type_param);
            lemma_register_meta_model_closed(m, a.type_param);
        },
        TypeId::Tuple(tu) => {
            lemma_register_metas_model_props(m, tu.type_params, tu.type_params@.len() as int);
            lemma_register_metas_model_closed(m, tu.type_params, tu.type_params@.len() as int);
        },
    }
}

/// Registering a sequence of handles keeps the tables free of forward
/// references.
pub proof fn lemma_register_metas_model_closed(m: RegistryModel, hs: Vec<MetaType>, n: int)
    requires
        model_wf(m),
        model_closed(m),
    ensures
        model_closed(register_metas_model(m, hs, n).0),
    decreases hs, n,
{
    if n <= 0 || n > hs@.len() {
    } else {
        lemma_register_metas_model_closed(m, hs, n - 1);
        lemma_register_metas_model_props(m, hs, n - 1);
        let m1 = register_metas_model(m, hs, n - 1).0;
        lemma_register_meta_model_closed(m1, hs@[n - 1]);
    }
}

/// Registering a handle keeps the tables free of forward references: its
/// children are interned strictly before the handle's own entry is stored.
pub proof fn lemma_register_meta_model_closed(m: RegistryModel, h: MetaType)
    requires
        model_wf(m),
        model_closed(m),
    ensures
        model_closed(register_meta_model(m, h)),
    decreases h, 1int,
{
    if m.ids.contains(h.any_id) {
    } else {
        lemma_compact_tid_model_props(m, *h.type_id);
        lemma_compact_tid_model_closed(m, *h.type_id);
        let p = compact_tid_model(m, *h.type_id);
        assert(model_wf(p.0));
        lemma_closed_intern_type(p.0, h.any_id, p.1);
    }
}

/// The registry never produces a forward reference: starting from
/// well-formed tables that hold none — the fresh registry's empty tables
/// among them — registering any type graph leaves every type entry
/// referencing only strings of the string table and type entries recorded
/// before it, so a decoder can resolve both tables front to back.
pub proof fn lemma_no_forward_references(m: RegistryModel, h: MetaType)
    requires
        model_wf(m),
        model_closed(m),
    ensures
        model_closed(register_meta_model(m, h)),
        model_wf(register_meta_model(m, h)),
{
    lemma_register_meta_model_closed(m, h);
    lemma_register_meta_model_props(m, h);
}

/// A self-referential record compacts in bounded time, and every field that
/// refers back to the record's own handle — or to any handle registered
/// beforehand — compacts to that handle's own canonical index.
pub proof fn lemma_self_reference_compacts_to_own_index(
    m: RegistryModel,
    h: MetaType,
    d: TypeDefStruct,
)
    requires
        model_wf(m),
    ensures
        ({
            let m1 = register_meta_model(m, h);
            let i = meta_index_model(m, h);
            let p = struct_model(m1, d);
            &&& p.1 matches CompactTypeDefView::Struct { path, fields }
            &&& compact_def_model(m1, TypeDef::Struct(d)).1 == p.1
            &&& forall|k: int|
                0 <= k < d.fields@.len() && d.fields@[k].ty.any_id == h.any_id ==> (
                #[trigger] struct_model(m1, d).1->Struct_fields[k]).ty == i
        }),
{
    let m1 = register_meta_model(m, h);
    let i = meta_index_model(m, h);
    lemma_register_meta_model_props(m, h);
    let pp = compact_path_model(m1, d.path);
    lemma_intern_string_model_props(m1, d.path.name@);
    lemma_intern_strings_model_props(
        intern_string_model(m1, d.path.name@),
        d.path.namespace.segments.deep_view(),
    );
    lemma_model_extends_trans(
        m1,
        intern_string_model(m1, d.path.name@),
        pp.0,
    );
    lemma_first_index_of_extend(m1.ids, pp.0.ids, h.any_id);
    lemma_named_fields_reference_index(pp.0, d.fields, d.fields@.len() as int, h.any_id);
}

} // verus!
