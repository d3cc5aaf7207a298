//! Run-time descriptions of data types: namespaces, type identifiers,
//! structural type definitions, identity-stable handles, and an interning
//! registry that compacts a type graph into dense index-addressed tables.

pub mod compact;
pub mod meta_type;
pub mod registry;
pub mod type_def;
pub mod type_id;

pub use compact::{
    CompactClikeEnumVariant, CompactEnumVariant, CompactNamedField, CompactTypeDef, CompactTypeId,
    CompactTypePath,
};
pub use meta_type::{MetaType, Metadata};
pub use registry::Registry;
pub use type_def::{
    ClikeEnumVariant, EnumVariant, EnumVariantStruct, EnumVariantTupleStruct, EnumVariantUnit,
    HasTypeDef, NamedField, TypeDef, TypeDefStruct, TypeDefTupleStruct, TypePath, TypeSum,
    TypeSumClikeEnum, TypeSumEnum, UnnamedField,
};
pub use type_id::{
    HasTypeId, Namespace, NamespaceError, TypeId, TypeIdArray, TypeIdCustom, TypeIdPrimitive,
    TypeIdSlice, TypeIdTuple,
};
