use rigetti_pyo3::enums::{DefinitionError, UnitEnum, UnitVariant};
use rigetti_pyo3::record::{Field, Record};
use rigetti_pyo3::union::{Payload, UnionDef, UnionValue, Variant};
use rigetti_pyo3::value::{ConversionError, ForeignValue, Shape};
use rigetti_pyo3::wrapper::{Opaque, PyWrapper, PyWrapperMut};

fn variant(name: &str, payload: Payload) -> Variant {
    Variant {
        name: name.to_string(),
        payload,
    }
}

fn sample_union() -> UnionDef {
    UnionDef {
        name: "TestEnum".to_string(),
        variants: vec![
            variant("unit", Payload::Unit),
            variant("small", Payload::Shaped(Shape::Int(i8::MIN as i128, i8::MAX as i128))),
            variant("big", Payload::Shaped(Shape::Int(i64::MIN as i128, i64::MAX as i128))),
            variant("pending", Payload::Unimplemented),
            variant("string", Payload::Shaped(Shape::Str)),
        ],
    }
}

#[test]
fn union_construction_picks_the_first_declared_variant() {
    let def = sample_union();
    let u = def.construct(&ForeignValue::Int(5), "5").unwrap();
    assert_eq!(u.variant, 1);
    assert_eq!(u.payload, Some(ForeignValue::Int(5)));
    let u = def.construct(&ForeignValue::Int(1000), "1000").unwrap();
    assert_eq!(u.variant, 2);
    let u = def.construct(&ForeignValue::Str("s".to_string()), "'s'").unwrap();
    assert_eq!(u.variant, 4);
}

#[test]
fn union_construction_fails_when_no_variant_matches() {
    let def = sample_union();
    assert_eq!(
        def.construct(&ForeignValue::Bool(true), "True"),
        Err(ConversionError::NoVariantMatched(
            "could not create TestEnum from True".to_string()
        ))
    );
    assert_eq!(
        def.construct(&ForeignValue::Int(i64::MAX as i128 + 1), "9223372036854775808"),
        Err(ConversionError::NoVariantMatched(
            "could not create TestEnum from 9223372036854775808".to_string()
        ))
    );
}

#[test]
fn union_inner_on_unimplemented_variant_names_it() {
    let def = sample_union();
    let u = UnionValue {
        variant: 3,
        payload: Some(ForeignValue::Int(0)),
    };
    assert_eq!(
        def.inner(&u),
        Err(ConversionError::Unimplemented("pending".to_string()))
    );
    assert_eq!(
        def.from_variant(3, &ForeignValue::Int(0)),
        Err(ConversionError::Unimplemented("pending".to_string()))
    );
}

#[test]
fn union_inner_returns_payload_or_fails_without_one() {
    let def = sample_union();
    let u = def.construct(&ForeignValue::Int(-3), "-3").unwrap();
    assert_eq!(def.inner(&u), Ok(ForeignValue::Int(-3)));
    let unit = def.new_unit(0).unwrap();
    assert_eq!(unit, UnionValue { variant: 0, payload: None });
    assert_eq!(def.inner(&unit), Err(ConversionError::NoPayload("unit".to_string())));
    assert_eq!(def.new_unit(1), Err(ConversionError::WrongVariant));
}

#[test]
fn union_variant_tests_and_extraction() {
    let def = sample_union();
    let u = def.from_variant(2, &ForeignValue::Int(7)).unwrap();
    assert!(u.is_variant(2));
    assert!(!u.is_variant(1));
    assert_eq!(def.to_variant(&u, 2), Ok(ForeignValue::Int(7)));
    assert_eq!(def.to_variant(&u, 1), Err(ConversionError::WrongVariant));
    assert_eq!(def.as_variant(&u, 2), Some(ForeignValue::Int(7)));
    assert_eq!(def.as_variant(&u, 4), None);
}

#[test]
fn union_from_variant_checks_the_shape() {
    let def = sample_union();
    assert_eq!(
        def.from_variant(4, &ForeignValue::Int(1)),
        Err(ConversionError::WrongShape)
    );
    assert_eq!(
        def.from_variant(0, &ForeignValue::Null),
        Err(ConversionError::NoPayload("unit".to_string()))
    );
}

fn unit(name: &str, alias: Option<&str>) -> UnitVariant {
    UnitVariant {
        name: name.to_string(),
        alias: alias.map(|a| a.to_string()),
    }
}

#[test]
fn enum_with_mixed_aliases_is_refused() {
    let vs = vec![unit("None", Some("NONE")), unit("Some", None)];
    assert_eq!(UnitEnum::define(&vs), Err(DefinitionError::MixedAliases));
}

#[test]
fn enum_without_variants_is_refused() {
    assert_eq!(UnitEnum::define(&vec![]), Err(DefinitionError::NoVariants));
}

#[test]
fn enum_with_all_aliases_uses_them() {
    let vs = vec![unit("None", Some("NONE")), unit("Some", Some("SOME"))];
    let e = UnitEnum::define(&vs).unwrap();
    assert_eq!(e.foreign_name(0), "NONE");
    assert_eq!(e.foreign_name(1), "SOME");
    assert_eq!(e.native_name(0), "None");
    assert_eq!(e.from_foreign_name(&"SOME".to_string()), Some(1));
    assert_eq!(e.from_foreign_name(&"Some".to_string()), None);
}

#[test]
fn enum_without_aliases_keeps_native_names() {
    let vs = vec![unit("Red", None), unit("Green", None)];
    let e = UnitEnum::define(&vs).unwrap();
    assert_eq!(e.foreign_names, vec!["Red".to_string(), "Green".to_string()]);
    assert_eq!(e.from_foreign_name(&"Green".to_string()), Some(1));
}

fn point(x: i128, y: i128) -> Record {
    let i32_shape = Shape::Int(i32::MIN as i128, i32::MAX as i128);
    Record::new(vec![
        Field {
            name: "x".to_string(),
            shape: i32_shape,
            value: ForeignValue::Int(x),
        },
        Field {
            name: "y".to_string(),
            shape: i32_shape,
            value: ForeignValue::Int(y),
        },
    ])
    .unwrap()
}

#[test]
fn data_struct_fields_read_and_write_by_copy() {
    let x = "x".to_string();
    let mut handle = Opaque::from_inner(point(3, 4));
    assert_eq!(handle.as_inner().get(&x), Ok(ForeignValue::Int(3)));
    let before = handle.as_inner().clone();
    assert_eq!(handle.as_inner_mut().set(&x, ForeignValue::Int(10)), Ok(()));
    assert_eq!(handle.as_inner().get(&x), Ok(ForeignValue::Int(10)));
    assert_eq!(handle.as_inner().get(&"y".to_string()), Ok(ForeignValue::Int(4)));
    assert_eq!(before.get(&x), Ok(ForeignValue::Int(3)));
    assert_eq!(handle.into_inner(), point(10, 4));
}

#[test]
fn data_struct_setter_rejects_bad_values_and_keeps_state() {
    let mut p = point(3, 4);
    let x = "x".to_string();
    assert_eq!(
        p.set(&x, ForeignValue::Int(i32::MAX as i128 + 1)),
        Err(ConversionError::Narrowing)
    );
    assert_eq!(
        p.set(&x, ForeignValue::Str("3".to_string())),
        Err(ConversionError::WrongShape)
    );
    assert_eq!(
        p.set(&"z".to_string(), ForeignValue::Int(1)),
        Err(ConversionError::UnknownField)
    );
    assert_eq!(p, point(3, 4));
    assert_eq!(p.get(&"z".to_string()), Err(ConversionError::UnknownField));
}

#[test]
fn data_struct_construction_checks_each_field() {
    let r = Record::new(vec![
        Field {
            name: "flag".to_string(),
            shape: Shape::Bool,
            value: ForeignValue::Bool(true),
        },
        Field {
            name: "n".to_string(),
            shape: Shape::Int(0, 255),
            value: ForeignValue::Int(300),
        },
        Field {
            name: "s".to_string(),
            shape: Shape::Str,
            value: ForeignValue::Null,
        },
    ]);
    assert_eq!(r, Err(ConversionError::Narrowing));
}

#[test]
fn opaque_handle_gives_back_its_value() {
    let mut h = Opaque::from_inner(vec![1, 2, 3]);
    assert_eq!(h.as_inner(), &vec![1, 2, 3]);
    h.as_inner_mut().push(4);
    assert_eq!(h.into_inner(), vec![1, 2, 3, 4]);
}
