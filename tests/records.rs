use rigetti_pyo3::record::{FieldDef, Record, Source};
use rigetti_pyo3::value::{ConversionError, ForeignValue, Shape};

fn point_defs() -> Vec<FieldDef> {
    let i32_shape = Shape::Int(i32::MIN as i128, i32::MAX as i128);
    vec![
        FieldDef {
            name: "x".to_string(),
            shape: i32_shape,
        },
        FieldDef {
            name: "y".to_string(),
            shape: i32_shape,
        },
    ]
}

fn text(s: &str) -> ForeignValue {
    ForeignValue::Str(s.to_string())
}

#[test]
fn record_builds_from_a_positional_sequence() {
    let input = ForeignValue::List(vec![ForeignValue::Int(3), ForeignValue::Int(4)]);
    let r = Record::from_foreign(&point_defs(), &vec![Source::Named, Source::Positional], &input)
        .unwrap();
    assert_eq!(r.get(&"x".to_string()), Ok(ForeignValue::Int(3)));
    assert_eq!(r.get(&"y".to_string()), Ok(ForeignValue::Int(4)));
}

#[test]
fn record_builds_from_a_named_mapping() {
    let input = ForeignValue::Dict(vec![
        (text("y"), ForeignValue::Int(4)),
        (text("x"), ForeignValue::Int(3)),
        (text("x"), ForeignValue::Int(99)),
        (text("extra"), ForeignValue::Null),
    ]);
    let r = Record::from_foreign(&point_defs(), &vec![Source::Positional, Source::Named], &input)
        .unwrap();
    assert_eq!(r.get(&"x".to_string()), Ok(ForeignValue::Int(3)));
    assert_eq!(r.get(&"y".to_string()), Ok(ForeignValue::Int(4)));
}

#[test]
fn record_construction_fails_when_no_source_fits() {
    let defs = point_defs();
    let both = vec![Source::Positional, Source::Named];
    let short = ForeignValue::List(vec![ForeignValue::Int(3)]);
    let both_failed = || Err(ConversionError::NoVariantMatched("expected one of: positional named".to_string()));
    assert_eq!(Record::from_foreign(&defs, &both, &short), both_failed());
    let missing = ForeignValue::Dict(vec![(text("x"), ForeignValue::Int(3))]);
    assert_eq!(Record::from_foreign(&defs, &both, &missing), both_failed());
    let too_big = ForeignValue::List(vec![ForeignValue::Int(1 << 40), ForeignValue::Int(0)]);
    assert_eq!(Record::from_foreign(&defs, &both, &too_big), both_failed());
    let positional_only = vec![Source::Positional];
    let named = ForeignValue::Dict(vec![
        (text("x"), ForeignValue::Int(3)),
        (text("y"), ForeignValue::Int(4)),
    ]);
    assert_eq!(
        Record::from_foreign(&defs, &positional_only, &named),
        Err(ConversionError::NoVariantMatched("expected one of: positional".to_string()))
    );
    assert_eq!(
        Record::from_foreign(&defs, &vec![], &short),
        Err(ConversionError::NoVariantMatched("expected one of:".to_string()))
    );
}
