use std::cmp::Ordering;

use rigetti_pyo3::errors::{ExceptionClass, ForeignException, ToPythonError};
use rigetti_pyo3::naming::qualified_name;
use rigetti_pyo3::stubs::cmp_strings;
use rigetti_pyo3::value::ConversionError;

#[test]
fn conversion_errors_become_exceptions() {
    let e = ConversionError::Narrowing.to_py_err();
    assert_eq!(e.class, ExceptionClass::OverflowError);
    assert_eq!(e.message, "value out of range for the target type");
    let e = ConversionError::NoVariantMatched("could not create W from 1.5".to_string()).to_py_err();
    assert_eq!(e.class, ExceptionClass::ValueError);
    assert_eq!(e.message, "could not create W from 1.5");
    let e = ConversionError::WrongShape.to_py_err();
    assert_eq!(e.class, ExceptionClass::TypeError);
    let e = ConversionError::UnknownField.to_py_err();
    assert_eq!(e.class, ExceptionClass::AttributeError);
}

#[test]
fn unimplemented_variant_exception_names_the_variant() {
    let e = ConversionError::Unimplemented("pending".to_string()).to_py_err();
    assert_eq!(e.class, ExceptionClass::RuntimeError);
    assert_eq!(e.message, "variant has no conversion: pending");
}

#[test]
fn foreign_exception_maps_to_itself() {
    let e = ForeignException {
        class: ExceptionClass::ValueError,
        message: "bad".to_string(),
    };
    assert_eq!(e.clone().to_py_err(), e);
}

#[test]
fn strings_compare_lexicographically() {
    let a = "apple".to_string();
    let b = "banana".to_string();
    let ab = "ab".to_string();
    let abc = "abc".to_string();
    assert_eq!(cmp_strings(&a, &0, &b, &1), Ordering::Less);
    assert_eq!(cmp_strings(&b, &0, &a, &1), Ordering::Greater);
    assert_eq!(cmp_strings(&abc, &(), &ab, &()), Ordering::Greater);
    assert_eq!(cmp_strings(&ab, &(), &abc, &()), Ordering::Less);
    assert_eq!(cmp_strings(&a, &(), &a.clone(), &()), Ordering::Equal);
    let empty = String::new();
    assert_eq!(cmp_strings(&empty, &(), &a, &()), Ordering::Less);
}

#[test]
fn string_order_agrees_with_std_on_non_ascii() {
    let words = ["é", "e", "z", "日本", "日", "", "Z", "🦀", "\u{ffff}"];
    for x in words {
        for y in words {
            let (x, y) = (x.to_string(), y.to_string());
            assert_eq!(cmp_strings(&x, &(), &y, &()), x.cmp(&y));
        }
    }
}

#[test]
fn qualified_names_join_with_a_dot() {
    assert_eq!(qualified_name("example", "my_submodule"), "example.my_submodule");
    assert_eq!(qualified_name("Qubit", "Fixed"), "Qubit.Fixed");
    assert_eq!(qualified_name("", "x"), ".x");
}

#[test]
fn invalid_components_raise_a_value_error() {
    let e = ConversionError::Invalid.to_py_err();
    assert_eq!(e.class, ExceptionClass::ValueError);
}

#[test]
fn payload_free_variant_exception_names_the_variant() {
    let e = ConversionError::NoPayload("unit".to_string()).to_py_err();
    assert_eq!(e.class, ExceptionClass::RuntimeError);
    assert_eq!(e.message, "variant has no inner data: unit");
}
