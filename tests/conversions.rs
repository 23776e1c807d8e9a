use rigetti_pyo3::convert::{Bytes, PyTryFrom, ToPython};
use rigetti_pyo3::value::{ConversionError, ForeignValue};

fn round_trip<T: ToPython + PyTryFrom>(x: &T) -> T {
    let v = x.to_python().expect("conversion to a foreign value never fails here");
    T::py_try_from(&v).expect("a converted value reads back")
}

#[test]
fn integers_round_trip_across_their_range() {
    for x in [i8::MIN, -1, 0, 1, i8::MAX] {
        assert_eq!(round_trip(&x), x);
    }
    for x in [i16::MIN, i16::MAX] {
        assert_eq!(round_trip(&x), x);
    }
    for x in [i32::MIN, -7, i32::MAX] {
        assert_eq!(round_trip(&x), x);
    }
    for x in [i64::MIN, i64::MAX] {
        assert_eq!(round_trip(&x), x);
    }
    for x in [0u8, u8::MAX] {
        assert_eq!(round_trip(&x), x);
    }
    for x in [0u16, u16::MAX] {
        assert_eq!(round_trip(&x), x);
    }
    for x in [0u32, u32::MAX] {
        assert_eq!(round_trip(&x), x);
    }
    for x in [0u64, u64::MAX] {
        assert_eq!(round_trip(&x), x);
    }
}

#[test]
fn integer_converts_to_foreign_int() {
    assert_eq!(42i32.to_python(), Ok(ForeignValue::Int(42)));
    assert_eq!(u64::MAX.to_python(), Ok(ForeignValue::Int(u64::MAX as i128)));
}

#[test]
fn strings_round_trip_including_empty_and_non_ascii() {
    for s in ["", "hello", "héllo wörld", "日本語", "🦀"] {
        let s = s.to_string();
        assert_eq!(s.to_python(), Ok(ForeignValue::Str(s.clone())));
        assert_eq!(round_trip(&s), s);
    }
}

#[test]
fn booleans_round_trip() {
    assert_eq!(true.to_python(), Ok(ForeignValue::Bool(true)));
    assert!(round_trip(&true));
    assert!(!round_trip(&false));
}

#[test]
fn sequences_round_trip_including_empty_and_nested() {
    let empty: Vec<i32> = vec![];
    assert_eq!(round_trip(&empty), empty);
    let nested: Vec<Vec<i32>> = vec![vec![1, 2], vec![], vec![3]];
    assert_eq!(round_trip(&nested), nested);
    let strings = vec!["b".to_string(), "a".to_string()];
    assert_eq!(round_trip(&strings), strings);
}

#[test]
fn sequence_order_is_kept_both_ways() {
    let v = vec![3i64, 1, 2];
    let foreign = v.to_python().unwrap();
    assert_eq!(
        foreign,
        ForeignValue::List(vec![
            ForeignValue::Int(3),
            ForeignValue::Int(1),
            ForeignValue::Int(2)
        ])
    );
    assert_eq!(<Vec<i64>>::py_try_from(&foreign), Ok(vec![3, 1, 2]));
}

#[test]
fn optional_values_map_none_to_null() {
    let none: Option<i32> = None;
    assert_eq!(none.to_python(), Ok(ForeignValue::Null));
    assert_eq!(Some(5i32).to_python(), Ok(ForeignValue::Int(5)));
    assert_eq!(<Option<i32>>::py_try_from(&ForeignValue::Null), Ok(None));
    assert_eq!(<Option<i32>>::py_try_from(&ForeignValue::Int(5)), Ok(Some(5)));
    assert_eq!(round_trip(&Some("x".to_string())), Some("x".to_string()));
}

#[test]
fn pairs_round_trip_component_wise() {
    let p = (7u8, "seven".to_string());
    assert_eq!(
        p.to_python(),
        Ok(ForeignValue::Tuple(vec![
            ForeignValue::Int(7),
            ForeignValue::Str("seven".to_string())
        ]))
    );
    assert_eq!(round_trip(&p), p);
    let short = ForeignValue::Tuple(vec![ForeignValue::Int(7)]);
    assert_eq!(<(u8, String)>::py_try_from(&short), Err(ConversionError::WrongShape));
    let as_list = ForeignValue::List(vec![ForeignValue::Int(7), ForeignValue::Str("seven".to_string())]);
    assert_eq!(<(u8, String)>::py_try_from(&as_list), Err(ConversionError::WrongShape));
}

#[test]
fn narrowing_succeeds_at_the_bounds_and_fails_one_past() {
    assert_eq!(i32::py_try_from(&ForeignValue::Int(i32::MAX as i128)), Ok(i32::MAX));
    assert_eq!(i32::py_try_from(&ForeignValue::Int(i32::MIN as i128)), Ok(i32::MIN));
    assert_eq!(
        i32::py_try_from(&ForeignValue::Int(i32::MAX as i128 + 1)),
        Err(ConversionError::Narrowing)
    );
    assert_eq!(
        i32::py_try_from(&ForeignValue::Int(i32::MIN as i128 - 1)),
        Err(ConversionError::Narrowing)
    );
    assert_eq!(u8::py_try_from(&ForeignValue::Int(255)), Ok(255));
    assert_eq!(u8::py_try_from(&ForeignValue::Int(256)), Err(ConversionError::Narrowing));
    assert_eq!(u8::py_try_from(&ForeignValue::Int(-1)), Err(ConversionError::Narrowing));
    assert_eq!(
        u64::py_try_from(&ForeignValue::Int(u64::MAX as i128 + 1)),
        Err(ConversionError::Narrowing)
    );
    assert_eq!(
        i64::py_try_from(&ForeignValue::Int(i64::MIN as i128 - 1)),
        Err(ConversionError::Narrowing)
    );
}

#[test]
fn wrong_shape_is_reported() {
    let s = ForeignValue::Str("1".to_string());
    assert_eq!(i32::py_try_from(&s), Err(ConversionError::WrongShape));
    assert_eq!(bool::py_try_from(&ForeignValue::Int(1)), Err(ConversionError::WrongShape));
    assert_eq!(String::py_try_from(&ForeignValue::Null), Err(ConversionError::WrongShape));
    assert_eq!(<Vec<i32>>::py_try_from(&ForeignValue::Int(1)), Err(ConversionError::WrongShape));
}

#[test]
fn first_failing_element_decides_the_error() {
    let a = ForeignValue::List(vec![
        ForeignValue::Int(1),
        ForeignValue::Str("x".to_string()),
        ForeignValue::Int(1000),
    ]);
    assert_eq!(<Vec<u8>>::py_try_from(&a), Err(ConversionError::WrongShape));
    let b = ForeignValue::List(vec![
        ForeignValue::Int(1),
        ForeignValue::Int(1000),
        ForeignValue::Str("x".to_string()),
    ]);
    assert_eq!(<Vec<u8>>::py_try_from(&b), Err(ConversionError::Narrowing));
}

#[test]
fn duplicate_copies_nested_values() {
    let v = ForeignValue::List(vec![
        ForeignValue::List(vec![ForeignValue::Bool(true), ForeignValue::Null]),
        ForeignValue::Str("s".to_string()),
    ]);
    assert_eq!(v.duplicate(), v);
    assert_eq!(v.clone(), v);
}

#[test]
fn boxed_values_convert_as_their_contents() {
    let b = Box::new(vec![1u16, 2]);
    let f = b.to_python().unwrap();
    assert_eq!(f, ForeignValue::List(vec![ForeignValue::Int(1), ForeignValue::Int(2)]));
    assert_eq!(<Box<Vec<u16>>>::py_try_from(&f), Ok(b));
    assert_eq!(
        <Box<u16>>::py_try_from(&ForeignValue::Int(70_000)),
        Err(ConversionError::Narrowing)
    );
}

#[test]
fn widest_integers_round_trip() {
    for x in [i128::MIN, -1, 0, i128::MAX] {
        assert_eq!(round_trip(&x), x);
    }
    for x in [0u128, i128::MAX as u128, i128::MAX as u128 + 1, u128::MAX] {
        assert_eq!(round_trip(&x), x);
    }
    for x in [isize::MIN, 0, isize::MAX] {
        assert_eq!(round_trip(&x), x);
    }
    for x in [0usize, usize::MAX] {
        assert_eq!(round_trip(&x), x);
    }
    assert_eq!(u128::MAX.to_python(), Ok(ForeignValue::LargeInt(u128::MAX)));
    assert_eq!(
        (i128::MAX as u128).to_python(),
        Ok(ForeignValue::Int(i128::MAX))
    );
}

#[test]
fn large_integers_narrow_like_any_other() {
    let big = ForeignValue::LargeInt(u128::MAX);
    assert_eq!(i128::py_try_from(&big), Err(ConversionError::Narrowing));
    assert_eq!(u64::py_try_from(&big), Err(ConversionError::Narrowing));
    assert_eq!(u128::py_try_from(&big), Ok(u128::MAX));
    assert_eq!(u8::py_try_from(&ForeignValue::LargeInt(7)), Ok(7));
    assert_eq!(u128::py_try_from(&ForeignValue::Int(-1)), Err(ConversionError::Narrowing));
}

#[test]
fn triples_round_trip_and_tuples_are_not_sequences() {
    let t = (1i32, true, "x".to_string());
    let f = t.to_python().unwrap();
    assert_eq!(
        f,
        ForeignValue::Tuple(vec![
            ForeignValue::Int(1),
            ForeignValue::Bool(true),
            ForeignValue::Str("x".to_string())
        ])
    );
    assert_eq!(round_trip(&t), t);
    assert_eq!(<Vec<i32>>::py_try_from(&ForeignValue::Tuple(vec![ForeignValue::Int(1)])), Err(ConversionError::WrongShape));
}

#[test]
fn byte_strings_convert_to_foreign_bytes() {
    for b in [vec![], vec![0u8, 255, 10]] {
        let bytes = Bytes { bytes: b.clone() };
        let f = bytes.to_python().unwrap();
        assert_eq!(f, ForeignValue::Bytes(b));
        assert_eq!(Bytes::py_try_from(&f), Ok(bytes));
    }
    assert_eq!(
        Bytes::py_try_from(&ForeignValue::List(vec![ForeignValue::Int(1)])),
        Err(ConversionError::WrongShape)
    );
}

#[test]
fn tuples_of_one_and_twelve_items_round_trip() {
    let one = (5u8,);
    assert_eq!(one.to_python(), Ok(ForeignValue::Tuple(vec![ForeignValue::Int(5)])));
    assert_eq!(round_trip(&one), one);
    let twelve = (1u8, 2i16, 3u32, 4i64, true, "six".to_string(), 7usize, 8isize, None::<i32>, vec![10u8], (11i8,), 12u128);
    assert_eq!(round_trip(&twelve), twelve);
    let f = twelve.to_python().unwrap();
    let ForeignValue::Tuple(items) = &f else {
        panic!("expected a tuple, got {f:?}");
    };
    assert_eq!(items.len(), 12);
    assert_eq!(items[8], ForeignValue::Null);
}
