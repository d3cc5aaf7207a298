use type_metadata::meta_type::MetaType;
use type_metadata::type_def::TypeDef;
use type_metadata::type_id::{Namespace, TypeId, TypeIdCustom, TypeIdPrimitive, TypeIdTuple};

fn custom_id(name: &str) -> TypeId {
    TypeId::Custom(TypeIdCustom::new(
        name.to_string(),
        Namespace::prelude(),
        vec![],
    ))
}

#[test]
fn handles_of_same_type_agree() {
    let a = MetaType::new::<u32>();
    let b = MetaType::new::<u32>();
    assert_eq!(a.any_id(), b.any_id());
    assert_eq!(a.type_id(), b.type_id());
    assert_eq!(a.type_def(), b.type_def());
    assert_eq!(a, b);
}

#[test]
fn handles_of_distinct_types_differ() {
    let a = MetaType::new::<u32>();
    let b = MetaType::new::<bool>();
    let c = MetaType::of(&7u64);
    assert_ne!(a.any_id(), b.any_id());
    assert_ne!(a.any_id(), c.any_id());
    assert_ne!(a, b);
}

#[test]
fn handle_resolves_primitive_payloads() {
    let h = MetaType::new::<bool>();
    assert_eq!(
        h.type_id(),
        &TypeId::Primitive(TypeIdPrimitive::Bool)
    );
    assert_eq!(h.type_def(), Some(&TypeDef::Builtin));
    let shallow = MetaType::handle::<bool>();
    assert_eq!(shallow.any_id(), h.any_id());
    assert_eq!(shallow.type_def(), None);
}

#[test]
fn equality_goes_by_identity_token_alone() {
    let a = MetaType::from_parts(77, custom_id("First"), None);
    let b = MetaType::from_parts(77, TypeId::Tuple(TypeIdTuple::unit()), Some(TypeDef::Builtin));
    let c = MetaType::from_parts(78, custom_id("First"), None);
    assert_eq!(a, b);
    assert_ne!(a, c);
}

#[test]
fn ordering_goes_by_identity_token_alone() {
    let small = MetaType::from_parts(1, custom_id("Zzz"), None);
    let large = MetaType::from_parts(2, custom_id("Aaa"), None);
    assert!(small < large);
    assert!(large > small);
    assert_eq!(
        small.partial_cmp(&MetaType::from_parts(1, custom_id("Other"), None)),
        Some(std::cmp::Ordering::Equal)
    );
}

#[test]
fn from_parts_carries_its_payloads() {
    let h = MetaType::from_parts(5000, custom_id("Thing"), Some(TypeDef::Builtin));
    assert_eq!(h.any_id(), 5000);
    assert_eq!(h.type_id(), &custom_id("Thing"));
    assert_eq!(h.type_def(), Some(&TypeDef::Builtin));
}
