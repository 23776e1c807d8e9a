use std::collections::{HashMap, HashSet};

use rigetti_pyo3::convert::{PyTryFrom, ToPython};
use rigetti_pyo3::datetime::Date;
use rigetti_pyo3::hashed::{hash_map_to_python, hash_set_to_python};
use rigetti_pyo3::value::{ConversionError, ForeignValue};

fn num(n: i128) -> ForeignValue {
    ForeignValue::Int(n)
}

#[test]
fn hash_map_converts_every_entry_once() {
    let mut m: HashMap<i64, String> = HashMap::new();
    m.insert(3, "c".to_string());
    m.insert(-1, "a".to_string());
    m.insert(10, "b".to_string());
    let f = hash_map_to_python(&m).unwrap();
    let ForeignValue::Dict(entries) = &f else {
        panic!("expected a mapping, got {f:?}");
    };
    assert_eq!(entries.len(), 3);
    for (k, v) in &m {
        let pair = (num(*k as i128), v.to_python().unwrap());
        assert_eq!(entries.iter().filter(|e| **e == pair).count(), 1);
    }
    assert_eq!(<HashMap<i64, String>>::py_try_from(&f), Ok(m));
}

#[test]
fn hash_map_conversion_fails_with_a_values_error() {
    let mut m: HashMap<i64, Date> = HashMap::new();
    m.insert(1, Date::from_calendar_date(2000, 1, 1).unwrap());
    m.insert(2, Date::from_calendar_date(-3, 1, 1).unwrap());
    assert_eq!(hash_map_to_python(&m), Err(ConversionError::Invalid));
    let empty: HashMap<i64, u8> = HashMap::new();
    assert_eq!(hash_map_to_python(&empty), Ok(ForeignValue::Dict(vec![])));
}

#[test]
fn hash_map_reads_foreign_mappings() {
    let f = ForeignValue::Dict(vec![(num(2), num(20)), (num(1), num(10)), (num(2), num(21))]);
    let m = <HashMap<i64, u8>>::py_try_from(&f).unwrap();
    assert_eq!(m.len(), 2);
    assert_eq!(m[&1], 10);
    assert_eq!(m[&2], 21);
    let bad = ForeignValue::Dict(vec![(num(1), num(300))]);
    assert_eq!(<HashMap<i64, u8>>::py_try_from(&bad), Err(ConversionError::Narrowing));
    assert_eq!(
        <HashMap<i64, u8>>::py_try_from(&ForeignValue::List(vec![])),
        Err(ConversionError::WrongShape)
    );
}

#[test]
fn hash_set_round_trips() {
    let s: HashSet<i64> = [5, -7, 0, 5].into_iter().collect();
    let f = hash_set_to_python(&s);
    let ForeignValue::FrozenSet(items) = &f else {
        panic!("expected a set, got {f:?}");
    };
    assert_eq!(items.len(), 3);
    for k in &s {
        assert_eq!(items.iter().filter(|i| **i == num(*k as i128)).count(), 1);
    }
    assert_eq!(<HashSet<i64>>::py_try_from(&f), Ok(s));
    let bad = ForeignValue::FrozenSet(vec![ForeignValue::Null]);
    assert_eq!(<HashSet<i64>>::py_try_from(&bad), Err(ConversionError::WrongShape));
}
