use plprql::anydatum::{AnyDatum, Float4, Float8, HostCell, HostType, IntervalValue};

fn cell(ty: HostType, datum: Option<AnyDatum>) -> HostCell {
    HostCell { ty, datum }
}

fn assert_round_trip(v: AnyDatum) {
    let copy = v.clone();
    let host = v.into_datum();
    assert_eq!(AnyDatum::from_polymorphic_datum(host), Some(copy));
}

#[test]
fn round_trip_scalars() {
    assert_round_trip(AnyDatum::Bool(true));
    assert_round_trip(AnyDatum::I8(-7));
    assert_round_trip(AnyDatum::I16(-30000));
    assert_round_trip(AnyDatum::F32(Float4 { bits: 1.5f32.to_bits(), text: "1.5".to_string() }));
    assert_round_trip(AnyDatum::I32(123456));
    assert_round_trip(AnyDatum::F64(Float8 { bits: 2.25f64.to_bits(), text: "2.25".to_string() }));
    assert_round_trip(AnyDatum::I64(i64::MIN));
    assert_round_trip(AnyDatum::Numeric("3.14159265358979323846".to_string()));
    assert_round_trip(AnyDatum::String("hello".to_string()));
    assert_round_trip(AnyDatum::Date(8780));
    assert_round_trip(AnyDatum::Time(14706000000));
    assert_round_trip(AnyDatum::Timestamp(758637000000000));
    assert_round_trip(AnyDatum::Timestamptz(758637000000000));
    assert_round_trip(AnyDatum::Interval(IntervalValue { months: 14, days: 3, micros: 14706000000 }));
    assert_round_trip(AnyDatum::Json("{\"a\":1}".to_string()));
    assert_round_trip(AnyDatum::Uuid(0x123456789abcdef0fedcba9876543210u128));
}

#[test]
fn round_trip_arrays() {
    assert_round_trip(AnyDatum::BoolArray(vec![Some(true), None, Some(false)]));
    assert_round_trip(AnyDatum::I16Array(vec![Some(1), None]));
    assert_round_trip(AnyDatum::I32Array(vec![Some(-5), Some(7)]));
    assert_round_trip(AnyDatum::I64Array(vec![None, Some(i64::MAX)]));
    assert_round_trip(AnyDatum::F32Array(vec![
        Some(Float4 { bits: 0.5f32.to_bits(), text: "0.5".to_string() }),
        None,
    ]));
    assert_round_trip(AnyDatum::F64Array(vec![
        Some(Float8 { bits: 0.25f64.to_bits(), text: "0.25".to_string() }),
    ]));
    assert_round_trip(AnyDatum::StringArray(vec![Some("a".to_string()), None]));
}

#[test]
fn round_trip_picks_matching_host_type() {
    let host = AnyDatum::String("x".to_string()).into_datum();
    assert_eq!(host.ty, HostType::Text);
    let host = AnyDatum::I8(1).into_datum();
    assert_eq!(host.ty, HostType::Char);
    let host = AnyDatum::BoolArray(vec![]).into_datum();
    assert_eq!(host.ty, HostType::BoolArray);
}

#[test]
fn null_cells_marshal_to_none_for_every_non_array_kind() {
    for ty in [
        HostType::Bool,
        HostType::Char,
        HostType::Int2,
        HostType::Float4,
        HostType::Int4,
        HostType::Float8,
        HostType::Int8,
        HostType::Numeric,
        HostType::Text,
        HostType::Date,
        HostType::Time,
        HostType::Timestamp,
        HostType::Timestamptz,
        HostType::Interval,
        HostType::Jsonb,
        HostType::Uuid,
        HostType::Varchar,
    ] {
        assert_eq!(AnyDatum::from_polymorphic_datum(cell(ty, None)), None);
    }
}

#[test]
fn null_array_cells_take_the_non_null_path_and_still_yield_none() {
    // A NULL array cell is handed to the non-null conversion path; with no
    // payload behind it, the conversion finds nothing and yields absence,
    // the same observable outcome as the scalar NULL rule.
    for ty in [
        HostType::BoolArray,
        HostType::Int2Array,
        HostType::Int4Array,
        HostType::Int8Array,
        HostType::Float4Array,
        HostType::Float8Array,
        HostType::TextArray,
    ] {
        assert_eq!(AnyDatum::from_polymorphic_datum(cell(ty, None)), None);
    }
}

#[test]
fn unmapped_host_type_yields_absence_not_a_value() {
    let c = cell(HostType::Other(700700), Some(AnyDatum::I32(5)));
    assert_eq!(AnyDatum::from_polymorphic_datum(c), None);
}

#[test]
fn mismatched_tag_yields_absence() {
    let c = cell(HostType::Bool, Some(AnyDatum::I32(5)));
    assert_eq!(AnyDatum::from_polymorphic_datum(c), None);
}

#[test]
fn varchar_cells_decode_to_the_native_string_kind() {
    let c = cell(HostType::Varchar, Some(AnyDatum::String("v".to_string())));
    assert_eq!(
        AnyDatum::from_polymorphic_datum(c),
        Some(AnyDatum::String("v".to_string()))
    );
}

#[test]
fn is_array_distinguishes_array_kinds() {
    assert!(AnyDatum::BoolArray(vec![]).is_array());
    assert!(AnyDatum::StringArray(vec![]).is_array());
    assert!(AnyDatum::I64Array(vec![]).is_array());
    assert!(!AnyDatum::Bool(true).is_array());
    assert!(!AnyDatum::String("x".to_string()).is_array());
    assert!(!AnyDatum::Interval(IntervalValue { months: 0, days: 0, micros: 0 }).is_array());
}

#[test]
fn compatibility_covers_exactly_the_known_host_types() {
    assert!(AnyDatum::is_compatible_with(HostType::Bool));
    assert!(AnyDatum::is_compatible_with(HostType::Varchar));
    assert!(AnyDatum::is_compatible_with(HostType::TextArray));
    assert!(!AnyDatum::is_compatible_with(HostType::Other(12345)));
}
