use std::collections::BTreeMap;

use rigetti_pyo3::convert::{PyTryFrom, ToPython};
use rigetti_pyo3::datetime::Date;
use rigetti_pyo3::value::{ConversionError, ForeignValue};

fn num(n: i128) -> ForeignValue {
    ForeignValue::Int(n)
}

fn text(s: &str) -> ForeignValue {
    ForeignValue::Str(s.to_string())
}

#[test]
fn sorted_map_converts_in_key_order() {
    let mut m: BTreeMap<i64, String> = BTreeMap::new();
    m.insert(30, "c".to_string());
    m.insert(-5, "a".to_string());
    m.insert(7, "b".to_string());
    let f = m.to_python().unwrap();
    assert_eq!(
        f,
        ForeignValue::Dict(vec![(num(-5), text("a")), (num(7), text("b")), (num(30), text("c"))])
    );
    let back = <BTreeMap<i64, String>>::py_try_from(&f).unwrap();
    assert_eq!(back, m);
    assert_eq!(back.keys().copied().collect::<Vec<_>>(), vec![-5, 7, 30]);
}

#[test]
fn empty_and_nested_maps_round_trip() {
    let empty: BTreeMap<i64, i32> = BTreeMap::new();
    assert_eq!(empty.to_python(), Ok(ForeignValue::Dict(vec![])));
    assert_eq!(<BTreeMap<i64, i32>>::py_try_from(&ForeignValue::Dict(vec![])), Ok(empty));

    let mut nested: BTreeMap<i64, Vec<Option<u8>>> = BTreeMap::new();
    nested.insert(2, vec![Some(1), None]);
    nested.insert(1, vec![]);
    let f = nested.to_python().unwrap();
    assert_eq!(<BTreeMap<i64, Vec<Option<u8>>>>::py_try_from(&f), Ok(nested));
}

#[test]
fn foreign_mapping_in_any_order_reads_into_sorted_map() {
    let f = ForeignValue::Dict(vec![(num(3), num(30)), (num(1), num(10)), (num(2), num(20))]);
    let m = <BTreeMap<i64, u8>>::py_try_from(&f).unwrap();
    assert_eq!(m.into_iter().collect::<Vec<_>>(), vec![(1, 10), (2, 20), (3, 30)]);
}

#[test]
fn later_foreign_entry_replaces_earlier_one() {
    let f = ForeignValue::Dict(vec![(num(1), num(10)), (num(1), num(11))]);
    let m = <BTreeMap<i64, u8>>::py_try_from(&f).unwrap();
    assert_eq!(m.get(&1), Some(&11));
    assert_eq!(m.len(), 1);
}

#[test]
fn map_conversion_failures() {
    let bad_key = ForeignValue::Dict(vec![(text("k"), num(1))]);
    assert_eq!(<BTreeMap<i64, u8>>::py_try_from(&bad_key), Err(ConversionError::WrongShape));
    let bad_value = ForeignValue::Dict(vec![(num(1), num(1)), (num(2), num(256))]);
    assert_eq!(<BTreeMap<i64, u8>>::py_try_from(&bad_value), Err(ConversionError::Narrowing));
    let big_key = ForeignValue::Dict(vec![(num(i64::MAX as i128 + 1), num(0))]);
    assert_eq!(<BTreeMap<i64, u8>>::py_try_from(&big_key), Err(ConversionError::Narrowing));
    assert_eq!(
        <BTreeMap<i64, u8>>::py_try_from(&ForeignValue::List(vec![])),
        Err(ConversionError::WrongShape)
    );
    let mut dates: BTreeMap<i64, Date> = BTreeMap::new();
    dates.insert(1, Date::from_calendar_date(2000, 1, 1).unwrap());
    dates.insert(2, Date::from_calendar_date(0, 1, 1).unwrap());
    assert_eq!(dates.to_python(), Err(ConversionError::Invalid));
}

#[test]
fn dict_values_copy_deeply() {
    let f = ForeignValue::Dict(vec![(num(1), ForeignValue::List(vec![ForeignValue::Null]))]);
    assert_eq!(f.duplicate(), f);
}

#[test]
fn sorted_set_converts_in_increasing_order() {
    let s: std::collections::BTreeSet<i64> = [9, -1, 4].into_iter().collect();
    let f = s.to_python().unwrap();
    assert_eq!(f, ForeignValue::FrozenSet(vec![num(-1), num(4), num(9)]));
    assert_eq!(<std::collections::BTreeSet<i64>>::py_try_from(&f), Ok(s));
}

#[test]
fn foreign_set_in_any_order_reads_into_sorted_set() {
    let f = ForeignValue::FrozenSet(vec![num(3), num(1), num(3), num(2)]);
    let s = <std::collections::BTreeSet<i64>>::py_try_from(&f).unwrap();
    assert_eq!(s.into_iter().collect::<Vec<_>>(), vec![1, 2, 3]);
    let empty = ForeignValue::FrozenSet(vec![]);
    assert_eq!(
        <std::collections::BTreeSet<i64>>::py_try_from(&empty).map(|s| s.len()),
        Ok(0)
    );
}

#[test]
fn set_conversion_failures() {
    let bad = ForeignValue::FrozenSet(vec![num(1), text("x")]);
    assert_eq!(
        <std::collections::BTreeSet<i64>>::py_try_from(&bad),
        Err(ConversionError::WrongShape)
    );
    let list = ForeignValue::List(vec![num(1)]);
    assert_eq!(
        <std::collections::BTreeSet<i64>>::py_try_from(&list),
        Err(ConversionError::WrongShape)
    );
}
