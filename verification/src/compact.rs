//! The compact form of the type graph: every string and every type
//! reference is a dense index into the tables of a registry.
//!
//! Each exec type has a spec-level image (its view) over `Seq` and `int`,
//! which the compaction model in [`crate::registry`] speaks about.

use vstd::prelude::*;

use crate::type_id::TypeIdPrimitive;

verus! {

/// Spec-level image of a compact type identifier.
pub enum CompactTypeIdView {
    /// A built-in primitive type.
    Primitive { prim: TypeIdPrimitive },
    /// A custom type: string index, string indices, type indices.
    Custom { name: int, namespace: Seq<int>, type_params: Seq<int> },
    /// A slice: the element's type index.
    Slice { type_param: int },
    /// An array: length and the element's type index.
    Array { len: u16, type_param: int },
    /// A tuple: the elements' type indices.
    Tuple { type_params: Seq<int> },
}

/// A compact type identifier: the image of a [`crate::type_id::TypeId`]
/// where every string is a string-table index and every type reference is a
/// type-table index.
#[derive(PartialEq, Eq, Debug, Clone)]
pub enum CompactTypeId {
    /// A built-in primitive type.
    Primitive {
        /// The primitive.
        prim: TypeIdPrimitive,
    },
    /// A custom, named type.
    Custom {
        /// Index of the name in the string table.
        name: usize,
        /// Indices of the namespace segments in the string table.
        namespace: Vec<usize>,
        /// Indices of the generic arguments in the type table.
        type_params: Vec<usize>,
    },
    /// A dynamically sized slice.
    Slice {
        /// Index of the element type in the type table.
        type_param: usize,
    },
    /// A fixed-length array.
    Array {
        /// The number of elements.
        len: u16,
        /// Index of the element type in the type table.
        type_param: usize,
    },
    /// A tuple of types.
    Tuple {
        /// Indices of the element types in the type table.
        type_params: Vec<usize>,
    },
}

impl View for CompactTypeId {
    type V = CompactTypeIdView;

    open spec fn view(&self) -> CompactTypeIdView {
        match *self {
            CompactTypeId::Primitive { prim } => CompactTypeIdView::Primitive { prim },
            CompactTypeId::Custom { name, namespace, type_params } => (CompactTypeIdView::Custom {
                name: name as int,
                namespace: namespace@.map_values(|x: usize| x as int),
                type_params: type_params@.map_values(|x: usize| x as int),
            }),
            CompactTypeId::Slice { type_param } => (CompactTypeIdView::Slice {
                type_param: type_param as int,
            }),
            CompactTypeId::Array { len, type_param } => (CompactTypeIdView::Array {
                len,
                type_param: type_param as int,
            }),
            CompactTypeId::Tuple { type_params } => (CompactTypeIdView::Tuple {
                type_params: type_params@.map_values(|x: usize| x as int),
            }),
        }
    }
}

/// Spec-level image of a compact type path.
pub struct CompactTypePathView {
    /// Index of the name in the string table.
    pub name: int,
    /// Indices of the namespace segments in the string table.
    pub namespace: Seq<int>,
}

/// A compact type path: name and namespace segments as string-table indices.
#[derive(PartialEq, Eq, Debug, Clone)]
pub struct CompactTypePath {
    /// Index of the name in the string table.
    pub name: usize,
    /// Indices of the namespace segments in the string table.
    pub namespace: Vec<usize>,
}

impl View for CompactTypePath {
    type V = CompactTypePathView;

    open spec fn view(&self) -> CompactTypePathView {
        CompactTypePathView {
            name: self.name as int,
            namespace: self.namespace@.map_values(|x: usize| x as int),
        }
    }
}

/// Spec-level image of a compact named field.
pub struct CompactNamedFieldView {
    /// Index of the field name in the string table.
    pub name: int,
    /// Index of the field type in the type table.
    pub ty: int,
}

/// A compact named field: name as a string-table index, type as a
/// type-table index.
#[derive(PartialEq, Eq, Debug, Clone)]
pub struct CompactNamedField {
    /// Index of the field name in the string table.
    pub name: usize,
    /// Index of the field type in the type table.
    pub ty: usize,
}

impl View for CompactNamedField {
    type V = CompactNamedFieldView;

    open spec fn view(&self) -> CompactNamedFieldView {
        CompactNamedFieldView { name: self.name as int, ty: self.ty as int }
    }
}

/// Spec-level image of a compact enumeration variant.
pub struct CompactClikeEnumVariantView {
    /// Index of the variant name in the string table.
    pub name: int,
    /// The discriminant.
    pub discriminant: u64,
}

/// A compact enumeration variant: name as a string-table index, plus the
/// discriminant itself.
#[derive(PartialEq, Eq, Debug, Clone)]
pub struct CompactClikeEnumVariant {
    /// Index of the variant name in the string table.
    pub name: usize,
    /// The discriminant.
    pub discriminant: u64,
}

impl View for CompactClikeEnumVariant {
    type V = CompactClikeEnumVariantView;

    open spec fn view(&self) -> CompactClikeEnumVariantView {
        CompactClikeEnumVariantView { name: self.name as int, discriminant: self.discriminant }
    }
}

/// Spec-level image of a compact tagged-union variant.
pub enum CompactEnumVariantView {
    /// A variant without fields.
    Unit { name: int },
    /// A variant with named fields.
    Struct { name: int, fields: Seq<CompactNamedFieldView> },
    /// A variant with positional fields: their type indices, in order.
    TupleStruct { name: int, fields: Seq<int> },
}

/// A compact tagged-union variant.
#[derive(PartialEq, Eq, Debug, Clone)]
pub enum CompactEnumVariant {
    /// A variant without fields.
    Unit {
        /// Index of the variant name in the string table.
        name: usize,
    },
    /// A variant with named fields.
    Struct {
        /// Index of the variant name in the string table.
        name: usize,
        /// The fields, in declaration order.
        fields: Vec<CompactNamedField>,
    },
    /// A variant with positional fields.
    TupleStruct {
        /// Index of the variant name in the string table.
        name: usize,
        /// Type-table indices of the fields, in declaration order.
        fields: Vec<usize>,
    },
}

impl View for CompactEnumVariant {
    type V = CompactEnumVariantView;

    open spec fn view(&self) -> CompactEnumVariantView {
        match *self {
            CompactEnumVariant::Unit { name } => (CompactEnumVariantView::Unit {
                name: name as int,
            }),
            CompactEnumVariant::Struct { name, fields } => (CompactEnumVariantView::Struct {
                name: name as int,
                fields: fields@.map_values(|f: CompactNamedField| f@),
            }),
            CompactEnumVariant::TupleStruct { name, fields } => (CompactEnumVariantView::TupleStruct {
                name: name as int,
                fields: fields@.map_values(|x: usize| x as int),
            }),
        }
    }
}

/// Spec-level image of a compact type definition.
pub enum CompactTypeDefView {
    /// A built-in type with no further structure.
    Builtin,
    /// A record with named fields.
    Struct { path: CompactTypePathView, fields: Seq<CompactNamedFieldView> },
    /// A tuple-struct with positional fields: their type indices.
    TupleStruct { path: CompactTypePathView, fields: Seq<int> },
    /// An enumeration.
    ClikeEnum { path: CompactTypePathView, variants: Seq<CompactClikeEnumVariantView> },
    /// A tagged union.
    Enum { path: CompactTypePathView, variants: Seq<CompactEnumVariantView> },
}

/// A compact type definition: the image of a [`crate::type_def::TypeDef`]
/// where every string is a string-table index and every field type is a
/// type-table index.
#[derive(PartialEq, Eq, Debug, Clone)]
pub enum CompactTypeDef {
    /// A built-in type with no further structure.
    Builtin,
    /// A record with named fields.
    Struct {
        /// The path of the record type.
        path: CompactTypePath,
        /// The fields, in declaration order.
        fields: Vec<CompactNamedField>,
    },
    /// A tuple-struct with positional fields.
    TupleStruct {
        /// The path of the tuple-struct type.
        path: CompactTypePath,
        /// Type-table indices of the fields, in declaration order.
        fields: Vec<usize>,
    },
    /// An enumeration.
    ClikeEnum {
        /// The path of the enumeration type.
        path: CompactTypePath,
        /// The variants, in declaration order.
        variants: Vec<CompactClikeEnumVariant>,
    },
    /// A tagged union.
    Enum {
        /// The path of the tagged union type.
        path: CompactTypePath,
        /// The variants, in declaration order.
        variants: Vec<CompactEnumVariant>,
    },
}

impl View for CompactTypeDef {
    type V = CompactTypeDefView;

    open spec fn view(&self) -> CompactTypeDefView {
        match *self {
            CompactTypeDef::Builtin => CompactTypeDefView::Builtin,
            CompactTypeDef::Struct { path, fields } => (CompactTypeDefView::Struct {
                path: path@,
                fields: fields@.map_values(|f: CompactNamedField| f@),
            }),
            CompactTypeDef::TupleStruct { path, fields } => (CompactTypeDefView::TupleStruct {
                path: path@,
                fields: fields@.map_values(|x: usize| x as int),
            }),
            CompactTypeDef::ClikeEnum { path, variants } => (CompactTypeDefView::ClikeEnum {
                path: path@,
                variants: variants@.map_values(|v: CompactClikeEnumVariant| v@),
            }),
            CompactTypeDef::Enum { path, variants } => (CompactTypeDefView::Enum {
                path: path@,
                variants: variants@.map_values(|v: CompactEnumVariant| v@),
            }),
        }
    }
}

} // verus!
