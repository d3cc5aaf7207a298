use type_metadata::compact::{CompactTypeDef, CompactTypeId};
use type_metadata::meta_type::MetaType;
use type_metadata::registry::Registry;
use type_metadata::type_def::{
    ClikeEnumVariant, EnumVariant, EnumVariantStruct, EnumVariantTupleStruct, EnumVariantUnit,
    NamedField, TypeDef, TypeDefStruct, TypePath, TypeSum, TypeSumClikeEnum, TypeSumEnum,
    UnnamedField,
};
use type_metadata::type_id::{
    Namespace, TypeId, TypeIdArray, TypeIdCustom, TypeIdPrimitive, TypeIdSlice, TypeIdTuple,
};

fn custom_handle(token: u64, name: &str) -> MetaType {
    MetaType::from_parts(
        token,
        TypeId::Custom(TypeIdCustom::new(
            name.to_string(),
            Namespace::prelude(),
            vec![],
        )),
        None,
    )
}

fn strings(table: &[&str]) -> Vec<String> {
    table.iter().map(|s| s.to_string()).collect()
}

#[test]
fn intern_string_deduplicates() {
    let mut reg = Registry::new();
    let a = reg.intern_string(&"hello".to_string());
    let b = reg.intern_string(&"world".to_string());
    let c = reg.intern_string(&"hello".to_string());
    assert_eq!(a, 0);
    assert_eq!(b, 1);
    assert_eq!(c, 0);
    let (table, types) = reg.finish();
    assert_eq!(table, strings(&["hello", "world"]));
    assert!(types.is_empty());
}

#[test]
fn intern_type_first_seen_wins() {
    let mut reg = Registry::new();
    let a = reg.intern_type(40, CompactTypeId::Primitive { prim: TypeIdPrimitive::U8 });
    let b = reg.intern_type(41, CompactTypeId::Primitive { prim: TypeIdPrimitive::U16 });
    // A later value handed in under a known identity is not recorded.
    let c = reg.intern_type(40, CompactTypeId::Primitive { prim: TypeIdPrimitive::U128 });
    assert_eq!((a, b, c), (0, 1, 0));
    let (_, types) = reg.finish();
    assert_eq!(
        types,
        vec![
            CompactTypeId::Primitive { prim: TypeIdPrimitive::U8 },
            CompactTypeId::Primitive { prim: TypeIdPrimitive::U16 },
        ]
    );
}

#[test]
fn registering_twice_deduplicates() {
    let mut reg = Registry::new();
    let first = reg.register_type(&custom_handle(90, "Thing"));
    let again = reg.register_type(&custom_handle(90, "Thing"));
    assert_eq!(first, again);
    let (table, types) = reg.finish();
    assert_eq!(table, strings(&["Thing"]));
    assert_eq!(types.len(), 1);
}

// A record with two fields of the same custom type compacts to one type
// table entry for that type, and both fields reference the same index.
#[test]
fn pair_record_shares_one_entry() {
    let mut reg = Registry::new();
    let pair_idx = reg.register_type(&custom_handle(7, "Pair"));
    let def = TypeDefStruct::new(
        TypePath::new("Pair".to_string(), Namespace::prelude()),
        vec![
            NamedField::new("first".to_string(), custom_handle(42, "u32")),
            NamedField::new("second".to_string(), custom_handle(42, "u32")),
        ],
    );
    let compact = def.into_compact(&mut reg);
    let (table, types) = reg.finish();
    assert_eq!(table, strings(&["Pair", "first", "u32", "second"]));
    assert_eq!(types.len(), 2);
    assert_eq!(pair_idx, 0);
    match compact {
        CompactTypeDef::Struct { path, fields } => {
            assert_eq!(path.name, 0);
            assert!(path.namespace.is_empty());
            assert_eq!(fields.len(), 2);
            assert_eq!(fields[0].name, 1);
            assert_eq!(fields[1].name, 3);
            assert_eq!(fields[0].ty, 1);
            assert_eq!(fields[1].ty, 1);
        }
        other => panic!("expected a record image, got {:?}", other),
    }
}

// A record whose field resolves back to the record itself compacts in
// bounded time, and the self-reference is the record's own index.
#[test]
fn self_referential_record_compacts() {
    let mut reg = Registry::new();
    let node_idx = reg.register_type(&custom_handle(9, "Node"));
    let def = TypeDefStruct::new(
        TypePath::new("Node".to_string(), Namespace::prelude()),
        vec![NamedField::new("next".to_string(), custom_handle(9, "Node"))],
    );
    let compact = def.into_compact(&mut reg);
    match compact {
        CompactTypeDef::Struct { fields, .. } => {
            assert_eq!(fields[0].ty, node_idx);
        }
        other => panic!("expected a record image, got {:?}", other),
    }
    let (_, types) = reg.finish();
    assert_eq!(types.len(), 1);
}

fn sample_graph() -> MetaType {
    MetaType::from_parts(
        500,
        TypeId::Custom(TypeIdCustom::new(
            "Wrapper".to_string(),
            Namespace::new(vec!["my_crate".to_string(), "types".to_string()]).unwrap(),
            vec![
                custom_handle(42, "u32"),
                MetaType::from_parts(
                    501,
                    TypeId::Array(TypeIdArray::new(16, custom_handle(42, "u32"))),
                    None,
                ),
                MetaType::from_parts(
                    502,
                    TypeId::Slice(TypeIdSlice::new(custom_handle(43, "u64"))),
                    None,
                ),
            ],
        )),
        None,
    )
}

// Compacting the same graph from two fresh registries yields
// index-identical output.
#[test]
fn compaction_is_deterministic() {
    let mut first = Registry::new();
    let mut second = Registry::new();
    let a = first.register_type(&sample_graph());
    let b = second.register_type(&sample_graph());
    assert_eq!(a, b);
    assert_eq!(first.finish(), second.finish());
}

// Children are interned depth-first, before the parent is stored, so every
// reference points at an earlier index.
#[test]
fn children_precede_their_parent() {
    let mut reg = Registry::new();
    let idx = reg.register_type(&sample_graph());
    let (table, types) = reg.finish();
    assert_eq!(idx, 4);
    assert_eq!(
        table,
        strings(&["Wrapper", "my_crate", "types", "u32", "u64"])
    );
    assert_eq!(
        types,
        vec![
            CompactTypeId::Custom { name: 3, namespace: vec![], type_params: vec![] },
            CompactTypeId::Array { len: 16, type_param: 0 },
            CompactTypeId::Custom { name: 4, namespace: vec![], type_params: vec![] },
            CompactTypeId::Slice { type_param: 2 },
            CompactTypeId::Custom { name: 0, namespace: vec![1, 2], type_params: vec![0, 1, 3] },
        ]
    );
}

// The unit tuple compacts to an empty type-parameter list, distinct from
// any non-empty tuple.
#[test]
fn unit_tuple_compacts_to_empty_list() {
    let mut reg = Registry::new();
    let unit = MetaType::from_parts(600, TypeId::Tuple(TypeIdTuple::unit()), None);
    let pair = MetaType::from_parts(
        601,
        TypeId::Tuple(TypeIdTuple::new(vec![
            custom_handle(42, "u32"),
            custom_handle(43, "u64"),
        ])),
        None,
    );
    let unit_idx = reg.register_type(&unit);
    let pair_idx = reg.register_type(&pair);
    assert_ne!(unit_idx, pair_idx);
    let (_, types) = reg.finish();
    assert_eq!(types[unit_idx], CompactTypeId::Tuple { type_params: vec![] });
    match &types[pair_idx] {
        CompactTypeId::Tuple { type_params } => assert_eq!(type_params.len(), 2),
        other => panic!("expected a tuple image, got {:?}", other),
    }
    assert_ne!(types[unit_idx], types[pair_idx]);
}

#[test]
fn array_with_largest_length_compacts() {
    let mut reg = Registry::new();
    let arr = MetaType::from_parts(
        700,
        TypeId::Array(TypeIdArray::new(65535, custom_handle(42, "u32"))),
        None,
    );
    let idx = reg.register_type(&arr);
    let (_, types) = reg.finish();
    assert_eq!(idx, 1);
    assert_eq!(types[idx], CompactTypeId::Array { len: 65535, type_param: 0 });
}

#[test]
fn clike_enum_keeps_discriminants() {
    let mut reg = Registry::new();
    let def = TypeDef::Sum(TypeSum::ClikeEnum(TypeSumClikeEnum::new(
        TypePath::new("Days".to_string(), Namespace::prelude()),
        vec![
            ClikeEnumVariant::new("Monday".to_string(), 0),
            ClikeEnumVariant::new("Thursday".to_string(), 42),
        ],
    )));
    let compact = def.into_compact(&mut reg);
    match compact {
        CompactTypeDef::ClikeEnum { path, variants } => {
            assert_eq!(path.name, 0);
            assert_eq!(variants.len(), 2);
            assert_eq!((variants[0].name, variants[0].discriminant), (1, 0));
            assert_eq!((variants[1].name, variants[1].discriminant), (2, 42));
        }
        other => panic!("expected an enumeration image, got {:?}", other),
    }
    let (table, _) = reg.finish();
    assert_eq!(table, strings(&["Days", "Monday", "Thursday"]));
}

#[test]
fn tagged_union_compacts_every_variant_kind() {
    let mut reg = Registry::new();
    let def = TypeDef::Sum(TypeSum::Enum(TypeSumEnum::new(
        TypePath::new("Operation".to_string(), Namespace::prelude()),
        vec![
            EnumVariant::Unit(EnumVariantUnit::new("Zero".to_string())),
            EnumVariant::TupleStruct(EnumVariantTupleStruct::new(
                "Add".to_string(),
                vec![
                    UnnamedField::new(custom_handle(42, "u32")),
                    UnnamedField::new(custom_handle(42, "u32")),
                ],
            )),
            EnumVariant::Struct(EnumVariantStruct::new(
                "Minus".to_string(),
                vec![NamedField::new("source".to_string(), custom_handle(43, "u64"))],
            )),
        ],
    )));
    let compact = def.into_compact(&mut reg);
    let (table, types) = reg.finish();
    assert_eq!(
        table,
        strings(&["Operation", "Zero", "Add", "u32", "Minus", "source", "u64"])
    );
    assert_eq!(types.len(), 2);
    match compact {
        CompactTypeDef::Enum { variants, .. } => {
            assert_eq!(variants.len(), 3);
            match &variants[1] {
                type_metadata::compact::CompactEnumVariant::TupleStruct { name, fields } => {
                    assert_eq!(*name, 2);
                    assert_eq!(fields, &vec![0, 0]);
                }
                other => panic!("expected a tuple-struct image, got {:?}", other),
            }
            match &variants[2] {
                type_metadata::compact::CompactEnumVariant::Struct { name, fields } => {
                    assert_eq!(*name, 4);
                    assert_eq!(fields[0].name, 5);
                    assert_eq!(fields[0].ty, 1);
                }
                other => panic!("expected a struct image, got {:?}", other),
            }
        }
        other => panic!("expected a tagged union image, got {:?}", other),
    }
}
