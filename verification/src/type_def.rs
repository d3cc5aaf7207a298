//! Type definitions: what a type looks like from the inside — records with
//! named fields, tuple-structs with positional fields, and the two tagged
//! union families.

use vstd::prelude::*;

use crate::meta_type::MetaType;
use crate::type_id::Namespace;

verus! {

/// Implementors hand out the type definition that describes `Self`.
pub trait HasTypeDef {
    /// The type definition of `Self`.
    spec fn spec_type_def() -> TypeDef;

    /// Returns the type definition for `Self`.
    fn type_def() -> (r: TypeDef)
        ensures
            r == Self::spec_type_def(),
    ;
}

/// The path of a custom type: its name and the namespace of its origin.
#[derive(PartialEq, Eq, Debug)]
pub struct TypePath {
    /// The name of the type.
    pub name: String,
    /// The namespace the type was defined in.
    pub namespace: Namespace,
}

impl TypePath {
    /// Creates a type path from a name and a namespace.
    pub fn new(name: String, namespace: Namespace) -> (r: Self)
        ensures
            r.name == name,
            r.namespace == namespace,
    {
        TypePath { name, namespace }
    }
}

/// A named field of a record or of a struct variant.
#[derive(PartialEq, Eq, Debug)]
pub struct NamedField {
    /// The name of the field.
    pub name: String,
    /// The type of the field, referenced by handle.
    pub ty: MetaType,
}

impl NamedField {
    /// Creates a named field.
    pub fn new(name: String, ty: MetaType) -> (r: Self)
        ensures
            r.name == name,
            r.ty == ty,
    {
        NamedField { name, ty }
    }
}

/// A positional field of a tuple-struct or of a tuple-struct variant.
#[derive(PartialEq, Eq, Debug)]
pub struct UnnamedField {
    /// The type of the field, referenced by handle.
    pub ty: MetaType,
}

impl UnnamedField {
    /// Creates a positional field.
    pub fn new(ty: MetaType) -> (r: Self)
        ensures
            r.ty == ty,
    {
        UnnamedField { ty }
    }
}

/// Describes the internal layout of a type.
#[derive(PartialEq, Eq, Debug)]
pub enum TypeDef {
    /// A built-in type with no further structure.
    Builtin,
    /// A record with named fields.
    Struct(TypeDefStruct),
    /// A tuple-struct with positional fields.
    TupleStruct(TypeDefTupleStruct),
    /// A tagged union.
    Sum(TypeSum),
}

/// A record type: named fields in declaration order.
#[derive(PartialEq, Eq, Debug)]
pub struct TypeDefStruct {
    /// The path of the record type.
    pub path: TypePath,
    /// The fields, in declaration order.
    pub fields: Vec<NamedField>,
}

impl TypeDefStruct {
    /// Creates a record definition from the given fields.
    pub fn new(path: TypePath, fields: Vec<NamedField>) -> (r: Self)
        ensures
            r.path == path,
            r.fields == fields,
    {
        TypeDefStruct { path, fields }
    }
}

/// A tuple-struct type: positional fields in declaration order.
#[derive(PartialEq, Eq, Debug)]
pub struct TypeDefTupleStruct {
    /// The path of the tuple-struct type.
    pub path: TypePath,
    /// The fields, in declaration order.
    pub fields: Vec<UnnamedField>,
}

impl TypeDefTupleStruct {
    /// Creates a tuple-struct definition from the given fields.
    pub fn new(path: TypePath, fields: Vec<UnnamedField>) -> (r: Self)
        ensures
            r.path == path,
            r.fields == fields,
    {
        TypeDefTupleStruct { path, fields }
    }
}

/// A sum type consisting of variants.
#[derive(PartialEq, Eq, Debug)]
pub enum TypeSum {
    /// An enumeration whose variants carry discriminants only.
    ClikeEnum(TypeSumClikeEnum),
    /// A tagged union whose variants may carry fields.
    Enum(TypeSumEnum),
}

/// An enumeration type: every variant is a bare name with a discriminant.
#[derive(PartialEq, Eq, Debug)]
pub struct TypeSumClikeEnum {
    /// The path of the enumeration type.
    pub path: TypePath,
    /// The variants, in declaration order.
    pub variants: Vec<ClikeEnumVariant>,
}

impl TypeSumClikeEnum {
    /// Creates an enumeration definition from the given variants.
    pub fn new(path: TypePath, variants: Vec<ClikeEnumVariant>) -> (r: Self)
        ensures
            r.path == path,
            r.variants == variants,
    {
        TypeSumClikeEnum { path, variants }
    }
}

/// A variant of an enumeration: a name and a discriminant. The discriminant
/// is always recorded, even when it was implicit at definition time; the
/// producer resolves implicit discriminants before constructing the model.
#[derive(PartialEq, Eq, Debug)]
pub struct ClikeEnumVariant {
    /// The name of the variant.
    pub name: String,
    /// The discriminant of the variant.
    pub discriminant: u64,
}

impl ClikeEnumVariant {
    /// Creates an enumeration variant.
    pub fn new(name: String, discriminant: u64) -> (r: Self)
        ensures
            r.name == name,
            r.discriminant == discriminant,
    {
        ClikeEnumVariant { name, discriminant }
    }
}

/// A tagged union type: variants that may carry named or positional fields.
#[derive(PartialEq, Eq, Debug)]
pub struct TypeSumEnum {
    /// The path of the tagged union type.
    pub path: TypePath,
    /// The variants, in declaration order.
    pub variants: Vec<EnumVariant>,
}

impl TypeSumEnum {
    /// Creates a tagged union definition from the given variants.
    pub fn new(path: TypePath, variants: Vec<EnumVariant>) -> (r: Self)
        ensures
            r.path == path,
            r.variants == variants,
    {
        TypeSumEnum { path, variants }
    }
}

/// A variant of a tagged union.
#[derive(PartialEq, Eq, Debug)]
pub enum EnumVariant {
    /// A variant without fields.
    Unit(EnumVariantUnit),
    /// A variant with named fields.
    Struct(EnumVariantStruct),
    /// A variant with positional fields.
    TupleStruct(EnumVariantTupleStruct),
}

/// A unit variant of a tagged union.
#[derive(PartialEq, Eq, Debug)]
pub struct EnumVariantUnit {
    /// The name of the variant.
    pub name: String,
}

impl EnumVariantUnit {
    /// Creates a unit variant.
    pub fn new(name: String) -> (r: Self)
        ensures
            r.name == name,
    {
        EnumVariantUnit { name }
    }
}

/// A struct variant of a tagged union: named fields in declaration order.
#[derive(PartialEq, Eq, Debug)]
pub struct EnumVariantStruct {
    /// The name of the variant.
    pub name: String,
    /// The fields, in declaration order.
    pub fields: Vec<NamedField>,
}

impl EnumVariantStruct {
    /// Creates a struct variant from the given fields.
    pub fn new(name: String, fields: Vec<NamedField>) -> (r: Self)
        ensures
            r.name == name,
            r.fields == fields,
    {
        EnumVariantStruct { name, fields }
    }
}

/// A tuple-struct variant of a tagged union: positional fields in
/// declaration order.
#[derive(PartialEq, Eq, Debug)]
pub struct EnumVariantTupleStruct {
    /// The name of the variant.
    pub name: String,
    /// The fields, in declaration order.
    pub fields: Vec<UnnamedField>,
}

impl EnumVariantTupleStruct {
    /// Creates a tuple-struct variant from the given fields.
    pub fn new(name: String, fields: Vec<UnnamedField>) -> (r: Self)
        ensures
            r.name == name,
            r.fields == fields,
    {
        EnumVariantTupleStruct { name, fields }
    }
}

} // verus!
