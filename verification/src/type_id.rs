//! Type identifiers: what a type looks like from the outside, together with
//! the namespace that locates a named type's origin.

use vstd::prelude::*;
use vstd::string::StrSliceExecFns;

use crate::meta_type::MetaType;

verus! {

/// Holds for a character that may begin an identifier segment:
/// an ASCII letter or an underscore.
pub open spec fn is_ident_head(c: char) -> bool {
    c == '_' || ('a' <= c && c <= 'z') || ('A' <= c && c <= 'Z')
}

/// Holds for a character that may continue an identifier segment:
/// an ASCII letter, an ASCII digit or an underscore.
pub open spec fn is_ident_tail(c: char) -> bool {
    is_ident_head(c) || ('0' <= c && c <= '9')
}

/// Holds for a well-formed identifier segment: nonempty, an identifier head
/// first, identifier tail characters after.
pub open spec fn is_identifier(s: Seq<char>) -> bool {
    &&& s.len() > 0
    &&& is_ident_head(s[0])
    &&& forall|i: int| 1 <= i < s.len() ==> is_ident_tail(#[trigger] s[i])
}

fn ident_head_ok(c: char) -> (r: bool)
    ensures
        r == is_ident_head(c),
{
    c == '_' || ('a' <= c && c <= 'z') || ('A' <= c && c <= 'Z')
}

fn ident_tail_ok(c: char) -> (r: bool)
    ensures
        r == is_ident_tail(c),
{
    ident_head_ok(c) || ('0' <= c && c <= '9')
}

fn is_valid_identifier(s: &str) -> (r: bool)
    ensures
        r == is_identifier(s@),
{
    let n = s.unicode_len();
    if n == 0 {
        return false;
    }
    if !ident_head_ok(s.get_char(0)) {
        return false;
    }
    let mut i: usize = 1;
    while i < n
        invariant
            1 <= i <= n,
            n == s@.len(),
            is_ident_head(s@[0]),
            forall|j: int| 1 <= j < i ==> is_ident_tail(#[trigger] s@[j]),
        decreases n - i,
    {
        if !ident_tail_ok(s.get_char(i)) {
            return false;
        }
        i += 1;
    }
    true
}

/// The segments obtained by splitting a path on the `::` separator, greedily
/// and left to right; `acc` holds the part of the current segment already
/// consumed.
pub open spec fn split_path_acc(acc: Seq<char>, s: Seq<char>) -> Seq<Seq<char>>
    decreases s.len(),
{
    if s.len() >= 2 && s[0] == ':' && s[1] == ':' {
        seq![acc] + split_path_acc(Seq::empty(), s.subrange(2, s.len() as int))
    } else if s.len() == 0 {
        seq![acc]
    } else {
        split_path_acc(acc.push(s[0]), s.subrange(1, s.len() as int))
    }
}

/// The segments obtained by splitting a path on the `::` separator.
pub open spec fn split_path(s: Seq<char>) -> Seq<Seq<char>> {
    split_path_acc(Seq::empty(), s)
}

fn split_on_separator(s: &str) -> (r: Vec<String>)
    ensures
        r.deep_view() == split_path(s@),
{
    let n = s.unicode_len();
    let mut segs: Vec<String> = Vec::new();
    let mut start: usize = 0;
    let mut i: usize = 0;
    proof {
        assert(s@.subrange(0, 0) =~= Seq::<char>::empty());
        assert(s@.subrange(0, n as int) =~= s@);
        assert(segs.deep_view() =~= Seq::<Seq<char>>::empty());
        assert(split_path(s@) =~= segs.deep_view() + split_path_acc(
            s@.subrange(0, 0),
            s@.subrange(0, n as int),
        ));
    }
    while i < n
        invariant
            start <= i <= n,
            n == s@.len(),
            split_path(s@) == segs.deep_view() + split_path_acc(
                s@.subrange(start as int, i as int),
                s@.subrange(i as int, n as int),
            ),
        decreases n - i,
    {
        let ghost acc = s@.subrange(start as int, i as int);
        let ghost rest = s@.subrange(i as int, n as int);
        if i + 1 < n && s.get_char(i) == ':' && s.get_char(i + 1) == ':' {
            let seg = s.substring_char(start, i).to_owned();
            segs.push(seg);
            proof {
                assert(rest[0] == ':' && rest[1] == ':');
                assert(rest.subrange(2, rest.len() as int) =~= s@.subrange(i + 2, n as int));
                assert(segs.deep_view() =~= segs.deep_view().drop_last().push(acc));
                assert(s@.subrange(i + 2, i + 2) =~= Seq::<char>::empty());
                assert(segs.deep_view().drop_last() + (seq![acc] + split_path_acc(
                    Seq::empty(),
                    s@.subrange(i + 2, n as int),
                )) =~= segs.deep_view() + split_path_acc(
                    s@.subrange(i + 2, i + 2),
                    s@.subrange(i + 2, n as int),
                ));
            }
            i += 2;
            start = i;
        } else {
            proof {
                assert(rest.len() >= 1);
                assert(rest[0] == s@[i as int]);
                if rest.len() >= 2 {
                    assert(rest[1] == s@[i + 1]);
                }
                assert(!(rest.len() >= 2 && rest[0] == ':' && rest[1] == ':'));
                assert(acc.push(rest[0]) =~= s@.subrange(start as int, i + 1));
                assert(rest.subrange(1, rest.len() as int) =~= s@.subrange(i + 1, n as int));
            }
            i += 1;
        }
    }
    let last = s.substring_char(start, n).to_owned();
    segs.push(last);
    proof {
        assert(s@.subrange(i as int, n as int).len() == 0);
        assert(segs.deep_view() =~= segs.deep_view().drop_last().push(
            s@.subrange(start as int, n as int),
        ));
        assert(segs.deep_view() =~= segs.deep_view().drop_last() + seq![
            s@.subrange(start as int, n as int),
        ]);
    }
    segs
}

/// The namespace of a type definition: the segments of the module path in
/// which the type was defined, each a valid identifier. Built-in types use
/// the empty prelude namespace.
#[derive(PartialEq, Eq, Debug)]
pub struct Namespace {
    /// The segments of the namespace.
    pub segments: Vec<String>,
}

/// An error encountered upon constructing a namespace.
#[derive(PartialEq, Eq, Structural, Clone, Copy, Debug)]
pub enum NamespaceError {
    /// The segment list was empty.
    MissingSegments,
    /// A segment was not a proper identifier.
    InvalidIdentifier {
        /// The index of the first erroneous segment.
        segment: usize,
    },
}

impl View for Namespace {
    type V = Seq<Seq<char>>;

    open spec fn view(&self) -> Seq<Seq<char>> {
        self.segments.deep_view()
    }
}

impl Namespace {
    /// Creates a namespace from the given segments. Fails with
    /// `MissingSegments` on an empty list, and with `InvalidIdentifier` at
    /// the first segment, left to right, that is not an identifier.
    pub fn new(segments: Vec<String>) -> (r: Result<Namespace, NamespaceError>)
        ensures
            match r {
                Ok(ns) => {
                    &&& ns.segments == segments
                    &&& segments@.len() > 0
                    &&& forall|i: int|
                        0 <= i < segments@.len() ==> is_identifier(#[trigger] segments@[i]@)
                },
                Err(NamespaceError::MissingSegments) => segments@.len() == 0,
                Err(NamespaceError::InvalidIdentifier { segment }) => {
                    &&& (segment as int) < segments@.len()
                    &&& !is_identifier(segments@[segment as int]@)
                    &&& forall|j: int| 0 <= j < segment ==> is_identifier(#[trigger] segments@[j]@)
                },
            },
    {
        if segments.len() == 0 {
            return Err(NamespaceError::MissingSegments);
        }
        let mut k: usize = 0;
        while k < segments.len()
            invariant
                k <= segments@.len(),
                forall|j: int| 0 <= j < k ==> is_identifier(#[trigger] segments@[j]@),
            decreases segments@.len() - k,
        {
            if !is_valid_identifier(segments[k].as_str()) {
                return Err(NamespaceError::InvalidIdentifier { segment: k });
            }
            k += 1;
        }
        Ok(Namespace { segments })
    }

    /// Creates a namespace from a module path: the path is split on the
    /// `::` separator and the segments are validated as by [`Self::new`].
    pub fn from_str(path: &str) -> (r: Result<Namespace, NamespaceError>)
        ensures
            ({
                let segs = split_path(path@);
                match r {
                    Ok(ns) => {
                        &&& ns@ == segs
                        &&& forall|i: int| 0 <= i < segs.len() ==> is_identifier(#[trigger] segs[i])
                    },
                    Err(NamespaceError::MissingSegments) => segs.len() == 0,
                    Err(NamespaceError::InvalidIdentifier { segment }) => {
                        &&& (segment as int) < segs.len()
                        &&& !is_identifier(segs[segment as int])
                        &&& forall|j: int| 0 <= j < segment ==> is_identifier(#[trigger] segs[j])
                    },
                }
            }),
    {
        let segments = split_on_separator(path);
        let ghost segs = split_path(path@);
        proof {
            assert(segments@.len() == segs.len());
            assert(forall|i: int|
                0 <= i < segs.len() ==> #[trigger] segs[i] == segments@[i]@);
        }
        Self::new(segments)
    }

    /// Creates the prelude namespace, the empty namespace of built-in types.
    pub fn prelude() -> (r: Namespace)
        ensures
            r@ == Seq::<Seq<char>>::empty(),
    {
        Namespace { segments: Vec::new() }
    }

    /// The segments of this namespace, in order.
    pub fn segments(&self) -> (r: &Vec<String>)
        ensures
            r == &self.segments,
    {
        &self.segments
    }
}

/// Implementors hand out the type identifier that describes `Self`.
pub trait HasTypeId {
    /// The identity token of `Self`, distinct per described type.
    spec fn spec_any_id() -> u64;

    /// The type identifier of `Self`.
    spec fn spec_type_id() -> TypeId;

    /// Returns the identity token for `Self`.
    fn any_id() -> (r: u64)
        ensures
            r == Self::spec_any_id(),
    ;

    /// Returns the type identifier for `Self`.
    fn type_id() -> (r: TypeId)
        ensures
            r == Self::spec_type_id(),
    ;
}

/// Describes a reference to a type, for use as a field type or as a generic
/// type argument.
#[derive(PartialEq, Eq, Debug)]
pub enum TypeId {
    /// A custom, named type.
    Custom(TypeIdCustom),
    /// A dynamically sized slice.
    Slice(TypeIdSlice),
    /// A fixed-length array.
    Array(TypeIdArray),
    /// A tuple of types.
    Tuple(TypeIdTuple),
    /// A built-in primitive type.
    Primitive(TypeIdPrimitive),
}

/// The built-in primitive types.
#[derive(PartialEq, Eq, Structural, Clone, Copy, Debug)]
pub enum TypeIdPrimitive {
    /// The boolean type.
    Bool,
    /// The string slice type.
    Str,
    /// The 8-bit unsigned integer type.
    U8,
    /// The 16-bit unsigned integer type.
    U16,
    /// The 32-bit unsigned integer type.
    U32,
    /// The 64-bit unsigned integer type.
    U64,
    /// The 128-bit unsigned integer type.
    U128,
    /// The 8-bit signed integer type.
    I8,
    /// The 16-bit signed integer type.
    I16,
    /// The 32-bit signed integer type.
    I32,
    /// The 64-bit signed integer type.
    I64,
    /// The 128-bit signed integer type.
    I128,
}

/// The identifier of a custom, named type: its name, the namespace of its
/// origin, and its generic type arguments, in declaration order.
#[derive(PartialEq, Eq, Debug)]
pub struct TypeIdCustom {
    /// The name of the type.
    pub name: String,
    /// The namespace the type was defined in.
    pub namespace: Namespace,
    /// The generic type arguments, referenced by handle.
    pub type_params: Vec<MetaType>,
}

impl TypeIdCustom {
    /// Creates the identifier of a custom type.
    pub fn new(name: String, namespace: Namespace, type_params: Vec<MetaType>) -> (r: Self)
        ensures
            r.name == name,
            r.namespace == namespace,
            r.type_params == type_params,
    {
        TypeIdCustom { name, namespace, type_params }
    }
}

/// The identifier of a fixed-length array type.
#[derive(PartialEq, Eq, Debug)]
pub struct TypeIdArray {
    /// The number of elements.
    pub len: u16,
    /// The element type, referenced by handle.
    pub type_param: MetaType,
}

impl TypeIdArray {
    /// Creates the identifier of an array type.
    pub fn new(len: u16, type_param: MetaType) -> (r: Self)
        ensures
            r.len == len,
            r.type_param == type_param,
    {
        TypeIdArray { len, type_param }
    }
}

/// The identifier of a tuple type.
#[derive(PartialEq, Eq, Debug)]
pub struct TypeIdTuple {
    /// The element types, in order, referenced by handle.
    pub type_params: Vec<MetaType>,
}

impl TypeIdTuple {
    /// Creates the identifier of a tuple type.
    pub fn new(type_params: Vec<MetaType>) -> (r: Self)
        ensures
            r.type_params == type_params,
    {
        TypeIdTuple { type_params }
    }

    /// Creates the identifier of the zero-element unit tuple, the canonical
    /// marker for "no type".
    pub fn unit() -> (r: Self)
        ensures
            r.type_params@.len() == 0,
    {
        TypeIdTuple { type_params: Vec::new() }
    }
}

/// The identifier of a dynamically sized slice type.
#[derive(PartialEq, Eq, Debug)]
pub struct TypeIdSlice {
    /// The element type, referenced by handle.
    pub type_param: MetaType,
}

impl TypeIdSlice {
    /// Creates the identifier of a slice type.
    pub fn new(type_param: MetaType) -> (r: Self)
        ensures
            r.type_param == type_param,
    {
        TypeIdSlice { type_param }
    }
}

} // verus!
