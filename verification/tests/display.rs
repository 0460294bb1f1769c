use plprql::anydatum::{write_array, AnyDatum, Float4, Float8, IntervalValue};

#[test]
fn bools_render_bare() {
    assert_eq!(AnyDatum::Bool(true).display(), "true");
    assert_eq!(AnyDatum::Bool(false).display(), "false");
}

#[test]
fn integers_render_bare_decimal() {
    assert_eq!(AnyDatum::I8(0).display(), "0");
    assert_eq!(AnyDatum::I8(-128).display(), "-128");
    assert_eq!(AnyDatum::I16(32767).display(), "32767");
    assert_eq!(AnyDatum::I32(-2147483648).display(), "-2147483648");
    assert_eq!(AnyDatum::I64(i64::MIN).display(), "-9223372036854775808");
    assert_eq!(AnyDatum::I64(i64::MAX).display(), "9223372036854775807");
}

#[test]
fn floats_render_the_boundary_text() {
    let f = 1.5f32;
    let v = AnyDatum::F32(Float4 { bits: f.to_bits(), text: format!("{f}") });
    assert_eq!(v.display(), "1.5");
    let g = -0.25f64;
    let v = AnyDatum::F64(Float8 { bits: g.to_bits(), text: format!("{g}") });
    assert_eq!(v.display(), "-0.25");
}

#[test]
fn numerics_render_bare_and_strings_quoted() {
    assert_eq!(AnyDatum::Numeric("3.14".to_string()).display(), "3.14");
    assert_eq!(AnyDatum::String("hello".to_string()).display(), "'hello'");
    assert_eq!(AnyDatum::Json("{\"a\":1}".to_string()).display(), "'{\"a\":1}'");
}

#[test]
fn dates_render_quoted_calendar_dates() {
    assert_eq!(AnyDatum::Date(0).display(), "'2000-01-01'");
    assert_eq!(AnyDatum::Date(8780).display(), "'2024-01-15'");
    assert_eq!(AnyDatum::Date(-1).display(), "'1999-12-31'");
    assert_eq!(AnyDatum::Date(-10957).display(), "'1970-01-01'");
}

#[test]
fn times_render_quoted_with_trimmed_fraction() {
    let base = (4 * 3600 + 5 * 60 + 6) * 1_000_000i64;
    assert_eq!(AnyDatum::Time(base).display(), "'04:05:06'");
    assert_eq!(AnyDatum::Time(base + 789_000).display(), "'04:05:06.789'");
    assert_eq!(AnyDatum::Time(0).display(), "'00:00:00'");
}

#[test]
fn timestamps_render_quoted_date_and_time() {
    let us = (8780i64 * 86400 + 12 * 3600 + 30 * 60) * 1_000_000;
    assert_eq!(AnyDatum::Timestamp(us).display(), "'2024-01-15 12:30:00'");
    assert_eq!(AnyDatum::Timestamp(-1).display(), "'1999-12-31 23:59:59.999999'");
    assert_eq!(AnyDatum::Timestamptz(us).display(), "'2024-01-15 12:30:00+00'");
}

#[test]
fn intervals_render_their_decomposition() {
    let v = AnyDatum::Interval(IntervalValue { months: 14, days: 3, micros: (4 * 3600 + 5 * 60 + 6) * 1_000_000 });
    assert_eq!(v.display(), "14 mons 3 days 04:05:06");
    let v = AnyDatum::Interval(IntervalValue { months: -1, days: 0, micros: -1_000_000 });
    assert_eq!(v.display(), "-1 mons 0 days -00:00:01");
}

#[test]
fn uuids_render_quoted_hyphenated_lower_case_hex() {
    let v = AnyDatum::Uuid(0x123456789abcdef0fedcba9876543210u128);
    assert_eq!(v.display(), "'12345678-9abc-def0-fedc-ba9876543210'");
    assert_eq!(AnyDatum::Uuid(0).display(), "'00000000-0000-0000-0000-000000000000'");
}

#[test]
fn arrays_render_bracket_and_comma_with_null_markers() {
    assert_eq!(AnyDatum::I32Array(vec![Some(1), None, Some(3)]).display(), "[1,null,3]");
    assert_eq!(AnyDatum::BoolArray(vec![Some(true), Some(false)]).display(), "[true,false]");
    assert_eq!(AnyDatum::I64Array(vec![]).display(), "[]");
    assert_eq!(
        AnyDatum::StringArray(vec![Some("a".to_string()), None, Some("b c".to_string())]).display(),
        "[a,null,b c]"
    );
    let f = 0.5f32;
    assert_eq!(
        AnyDatum::F32Array(vec![Some(Float4 { bits: f.to_bits(), text: format!("{f}") }), None]).display(),
        "[0.5,null]"
    );
}

#[test]
fn write_array_joins_rendered_elements() {
    let parts = vec![Some("1".to_string()), None, Some("x".to_string())];
    assert_eq!(write_array(&parts), "[1,null,x]");
    assert_eq!(write_array(&vec![]), "[]");
    assert_eq!(write_array(&vec![None]), "[null]");
}

#[test]
fn leap_days_and_first_year_render_correctly() {
    assert_eq!(AnyDatum::Date(59).display(), "'2000-02-29'");
    assert_eq!(AnyDatum::Date(-730119).display(), "'0001-01-01'");
}

#[test]
fn years_before_year_one_carry_the_bc_marker() {
    assert_eq!(AnyDatum::Date(-730120).display(), "'0001-12-31 BC'");
    assert_eq!(AnyDatum::Date(i32::MIN).display(), "'5877612-06-22 BC'");
    assert_eq!(AnyDatum::Date(i32::MAX).display(), "'5881610-07-11'");
}

#[test]
fn hours_widen_past_two_digits() {
    let t = (100 * 3600 + 1) * 1_000_000i64;
    assert_eq!(AnyDatum::Time(t).display(), "'100:00:01'");
    assert_eq!(AnyDatum::Time(-t).display(), "'-100:00:01'");
}
