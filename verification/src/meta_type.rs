//! Identity-stable handles to described types.
//!
//! A [`MetaType`] stands for one described type. It carries a cheap,
//! process-local identity token and the resolved type identifier; the type
//! definition travels with the handle only where the producer supplied it,
//! so a definition may reference the very type it belongs to — directly or
//! mutually — through handles that carry the identifier alone. Equality and
//! ordering go solely by the identity token; the payloads are never
//! consulted for them.

use vstd::prelude::*;

use crate::type_def::{HasTypeDef, TypeDef};
use crate::type_id::{HasTypeId, TypeId, TypeIdPrimitive};

verus! {

/// Everything a producer supplies for one described type: an identity
/// token, a type identifier, and a type definition.
pub trait Metadata: HasTypeId + HasTypeDef {
}

impl<T: HasTypeId + HasTypeDef> Metadata for T {
}

/// An identity-comparable handle to one described type.
#[derive(Debug)]
pub struct MetaType {
    /// The process-local identity token, the sole key for equality,
    /// ordering and interning.
    pub any_id: u64,
    /// The resolved type identifier.
    pub type_id: Box<TypeId>,
    /// The resolved type definition, where the producer supplied one.
    /// Handles standing in field or argument position leave it out, which is
    /// what lets a definition reference its own type without regress.
    pub type_def: Option<Box<TypeDef>>,
}

impl PartialEq for MetaType {
    /// Handles compare solely by identity token; the payloads are never
    /// consulted.
    fn eq(&self, other: &Self) -> (r: bool) {
        self.any_id == other.any_id
    }
}

impl Eq for MetaType {
}

impl vstd::std_specs::cmp::PartialEqSpecImpl for MetaType {
    open spec fn obeys_eq_spec() -> bool {
        true
    }

    open spec fn eq_spec(&self, other: &Self) -> bool {
        self.any_id == other.any_id
    }
}

impl PartialOrd for MetaType {
    /// Handles order solely by identity token; the payloads are never
    /// consulted.
    fn partial_cmp(&self, other: &Self) -> (r: Option<core::cmp::Ordering>) {
        if self.any_id < other.any_id {
            Some(core::cmp::Ordering::Less)
        } else if self.any_id == other.any_id {
            Some(core::cmp::Ordering::Equal)
        } else {
            Some(core::cmp::Ordering::Greater)
        }
    }
}

impl vstd::std_specs::cmp::PartialOrdSpecImpl for MetaType {
    open spec fn obeys_partial_cmp_spec() -> bool {
        true
    }

    open spec fn partial_cmp_spec(&self, other: &Self) -> Option<core::cmp::Ordering> {
        if self.any_id < other.any_id {
            Some(core::cmp::Ordering::Less)
        } else if self.any_id == other.any_id {
            Some(core::cmp::Ordering::Equal)
        } else {
            Some(core::cmp::Ordering::Greater)
        }
    }
}

impl MetaType {
    /// The definition carried by this handle, if any.
    pub open spec fn spec_def(self) -> Option<TypeDef> {
        match self.type_def {
            Some(d) => Some(*d),
            None => None,
        }
    }

    /// Holds when this handle carries the identity and identifier of `T`.
    pub open spec fn refers_to<T: HasTypeId>(self) -> bool {
        &&& self.any_id == T::spec_any_id()
        &&& *self.type_id == T::spec_type_id()
    }

    /// Holds when this handle fully describes `T`: identity, identifier
    /// and definition.
    pub open spec fn describes<T: Metadata>(self) -> bool {
        &&& self.refers_to::<T>()
        &&& self.spec_def() == Some(T::spec_type_def())
    }

    /// Creates the handle that fully describes `T`.
    pub fn new<T: Metadata>() -> (r: MetaType)
        ensures
            r.describes::<T>(),
    {
        MetaType {
            any_id: T::any_id(),
            type_id: Box::new(T::type_id()),
            type_def: Some(Box::new(T::type_def())),
        }
    }

    /// Creates the handle that fully describes the type of the given value.
    pub fn of<T: Metadata>(_elem: &T) -> (r: MetaType)
        ensures
            r.describes::<T>(),
    {
        Self::new::<T>()
    }

    /// Creates a handle that carries the identity and identifier of `T` but
    /// defers its definition. Producers use it wherever a definition refers
    /// to a type — possibly the type being defined — as a field type or as a
    /// generic argument.
    pub fn handle<T: HasTypeId>() -> (r: MetaType)
        ensures
            r.refers_to::<T>(),
            r.spec_def() is None,
    {
        MetaType { any_id: T::any_id(), type_id: Box::new(T::type_id()), type_def: None }
    }

    /// Creates a handle directly from its parts, for producers that resolve
    /// identity and payloads themselves.
    pub fn from_parts(any_id: u64, type_id: TypeId, type_def: Option<TypeDef>) -> (r: MetaType)
        ensures
            r.any_id == any_id,
            *r.type_id == type_id,
            r.spec_def() == type_def,
    {
        match type_def {
            Some(d) => MetaType { any_id, type_id: Box::new(type_id), type_def: Some(Box::new(d)) },
            None => MetaType { any_id, type_id: Box::new(type_id), type_def: None },
        }
    }

    /// The resolved type identifier of the described type.
    pub fn type_id(&self) -> (r: &TypeId)
        ensures
            *r == *self.type_id,
    {
        &self.type_id
    }

    /// The resolved type definition of the described type, where this
    /// handle carries one.
    pub fn type_def(&self) -> (r: Option<&TypeDef>)
        ensures
            match r {
                Some(d) => self.spec_def() == Some(*d),
                None => self.spec_def() is None,
            },
    {
        match &self.type_def {
            Some(d) => Some(&**d),
            None => None,
        }
    }

    /// The identity token of the described type.
    pub fn any_id(&self) -> (r: u64)
        ensures
            r == self.any_id,
    {
        self.any_id
    }
}

// The built-in producers below describe the primitive types. Each reserves
// a small constant as its identity token; producers of custom types must
// pick tokens distinct from one another and from these.

impl HasTypeId for bool {
    open spec fn spec_any_id() -> u64 {
        1
    }

    open spec fn spec_type_id() -> TypeId {
        TypeId::Primitive(TypeIdPrimitive::Bool)
    }

    fn any_id() -> (r: u64) {
        1
    }

    fn type_id() -> (r: TypeId) {
        TypeId::Primitive(TypeIdPrimitive::Bool)
    }
}

impl HasTypeDef for bool {
    open spec fn spec_type_def() -> TypeDef {
        TypeDef::Builtin
    }

    fn type_def() -> (r: TypeDef) {
        TypeDef::Builtin
    }
}

impl HasTypeId for u8 {
    open spec fn spec_any_id() -> u64 {
        3
    }

    open spec fn spec_type_id() -> TypeId {
        TypeId::Primitive(TypeIdPrimitive::U8)
    }

    fn any_id() -> (r: u64) {
        3
    }

    fn type_id() -> (r: TypeId) {
        TypeId::Primitive(TypeIdPrimitive::U8)
    }
}

impl HasTypeDef for u8 {
    open spec fn spec_type_def() -> TypeDef {
        TypeDef::Builtin
    }

    fn type_def() -> (r: TypeDef) {
        TypeDef::Builtin
    }
}

impl HasTypeId for u16 {
    open spec fn spec_any_id() -> u64 {
        4
    }

    open spec fn spec_type_id() -> TypeId {
        TypeId::Primitive(TypeIdPrimitive::U16)
    }

    fn any_id() -> (r: u64) {
        4
    }

    fn type_id() -> (r: TypeId) {
        TypeId::Primitive(TypeIdPrimitive::U16)
    }
}

impl HasTypeDef for u16 {
    open spec fn spec_type_def() -> TypeDef {
        TypeDef::Builtin
    }

    fn type_def() -> (r: TypeDef) {
        TypeDef::Builtin
    }
}

impl HasTypeId for u32 {
    open spec fn spec_any_id() -> u64 {
        5
    }

    open spec fn spec_type_id() -> TypeId {
        TypeId::Primitive(TypeIdPrimitive::U32)
    }

    fn any_id() -> (r: u64) {
        5
    }

    fn type_id() -> (r: TypeId) {
        TypeId::Primitive(TypeIdPrimitive::U32)
    }
}

impl HasTypeDef for u32 {
    open spec fn spec_type_def() -> TypeDef {
        TypeDef::Builtin
    }

    fn type_def() -> (r: TypeDef) {
        TypeDef::Builtin
    }
}

impl HasTypeId for u64 {
    open spec fn spec_any_id() -> u64 {
        6
    }

    open spec fn spec_type_id() -> TypeId {
        TypeId::Primitive(TypeIdPrimitive::U64)
    }

    fn any_id() -> (r: u64) {
        6
    }

    fn type_id() -> (r: TypeId) {
        TypeId::Primitive(TypeIdPrimitive::U64)
    }
}

impl HasTypeDef for u64 {
    open spec fn spec_type_def() -> TypeDef {
        TypeDef::Builtin
    }

    fn type_def() -> (r: TypeDef) {
        TypeDef::Builtin
    }
}

impl HasTypeId for u128 {
    open spec fn spec_any_id() -> u64 {
        7
    }

    open spec fn spec_type_id() -> TypeId {
        TypeId::Primitive(TypeIdPrimitive::U128)
    }

    fn any_id() -> (r: u64) {
        7
    }

    fn type_id() -> (r: TypeId) {
        TypeId::Primitive(TypeIdPrimitive::U128)
    }
}

impl HasTypeDef for u128 {
    open spec fn spec_type_def() -> TypeDef {
        TypeDef::Builtin
    }

    fn type_def() -> (r: TypeDef) {
        TypeDef::Builtin
    }
}

impl HasTypeId for i8 {
    open spec fn spec_any_id() -> u64 {
        8
    }

    open spec fn spec_type_id() -> TypeId {
        TypeId::Primitive(TypeIdPrimitive::I8)
    }

    fn any_id() -> (r: u64) {
        8
    }

    fn type_id() -> (r: TypeId) {
        TypeId::Primitive(TypeIdPrimitive::I8)
    }
}

impl HasTypeDef for i8 {
    open spec fn spec_type_def() -> TypeDef {
        TypeDef::Builtin
    }

    fn type_def() -> (r: TypeDef) {
        TypeDef::Builtin
    }
}

impl HasTypeId for i16 {
    open spec fn spec_any_id() -> u64 {
        9
    }

    open spec fn spec_type_id() -> TypeId {
        TypeId::Primitive(TypeIdPrimitive::I16)
    }

    fn any_id() -> (r: u64) {
        9
    }

    fn type_id() -> (r: TypeId) {
        TypeId::Primitive(TypeIdPrimitive::I16)
    }
}

impl HasTypeDef for i16 {
    open spec fn spec_type_def() -> TypeDef {
        TypeDef::Builtin
    }

    fn type_def() -> (r: TypeDef) {
        TypeDef::Builtin
    }
}

impl HasTypeId for i32 {
    open spec fn spec_any_id() -> u64 {
        10
    }

    open spec fn spec_type_id() -> TypeId {
        TypeId::Primitive(TypeIdPrimitive::I32)
    }

    fn any_id() -> (r: u64) {
        10
    }

    fn type_id() -> (r: TypeId) {
        TypeId::Primitive(TypeIdPrimitive::I32)
    }
}

impl HasTypeDef for i32 {
    open spec fn spec_type_def() -> TypeDef {
        TypeDef::Builtin
    }

    fn type_def() -> (r: TypeDef) {
        TypeDef::Builtin
    }
}

impl HasTypeId for i64 {
    open spec fn spec_any_id() -> u64 {
        11
    }

    open spec fn spec_type_id() -> TypeId {
        TypeId::Primitive(TypeIdPrimitive::I64)
    }

    fn any_id() -> (r: u64) {
        11
    }

    fn type_id() -> (r: TypeId) {
        TypeId::Primitive(TypeIdPrimitive::I64)
    }
}

impl HasTypeDef for i64 {
    open spec fn spec_type_def() -> TypeDef {
        TypeDef::Builtin
    }

    fn type_def() -> (r: TypeDef) {
        TypeDef::Builtin
    }
}

impl HasTypeId for i128 {
    open spec fn spec_any_id() -> u64 {
        12
    }

    open spec fn spec_type_id() -> TypeId {
        TypeId::Primitive(TypeIdPrimitive::I128)
    }

    fn any_id() -> (r: u64) {
        12
    }

    fn type_id() -> (r: TypeId) {
        TypeId::Primitive(TypeIdPrimitive::I128)
    }
}

impl HasTypeDef for i128 {
    open spec fn spec_type_def() -> TypeDef {
        TypeDef::Builtin
    }

    fn type_def() -> (r: TypeDef) {
        TypeDef::Builtin
    }
}

/// Two handles built from the same concrete type agree: equal identity
/// tokens, and payloads that resolve to structurally equal graphs — whether
/// or not the handles were constructed independently.
pub proof fn lemma_handles_of_same_type_agree<T: Metadata>(a: MetaType, b: MetaType)
    requires
        a.describes::<T>(),
        b.describes::<T>(),
    ensures
        a.any_id == b.any_id,
        *a.type_id == *b.type_id,
        a.spec_def() == b.spec_def(),
{
}

} // verus!
