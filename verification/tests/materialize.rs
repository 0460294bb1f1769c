use plprql::anydatum::{AnyDatum, HostCell, HostType};
use plprql::spi::{fetch_row, fetch_setof, fetch_table, HostTuple, Row};

fn text_cell(s: &str) -> HostCell {
    HostCell { ty: HostType::Text, datum: Some(AnyDatum::String(s.to_string())) }
}

fn int_cell(n: i32) -> HostCell {
    HostCell { ty: HostType::Int4, datum: Some(AnyDatum::I32(n)) }
}

fn null_cell(ty: HostType) -> HostCell {
    HostCell { ty, datum: None }
}

fn people() -> Vec<HostTuple> {
    vec![
        HostTuple { cells: vec![text_cell("Anakin"), int_cell(188)] },
        HostTuple { cells: vec![text_cell("Luke"), int_cell(172)] },
        HostTuple { cells: vec![text_cell("Shmi"), int_cell(163)] },
    ]
}

#[test]
fn table_results_preserve_row_and_column_order() {
    let rows = fetch_table(&people()).unwrap();
    assert_eq!(rows.len(), 3);
    let expected = [("Anakin", 188), ("Luke", 172), ("Shmi", 163)];
    for (row, (name, height)) in rows.iter().zip(expected.iter()) {
        assert_eq!(row.datums.len(), 2);
        assert_eq!(row.datums[0], Some(AnyDatum::String(name.to_string())));
        assert_eq!(row.datums[1], Some(AnyDatum::I32(*height)));
    }
}

#[test]
fn empty_table_result_is_the_no_data_signal() {
    assert!(fetch_table(&vec![]).is_none());
}

#[test]
fn null_cells_stay_null_in_table_rows() {
    let tuples = vec![HostTuple { cells: vec![text_cell("Luke"), null_cell(HostType::Int4)] }];
    let rows = fetch_table(&tuples).unwrap();
    assert_eq!(rows[0].datums[1], None);
}

#[test]
fn setof_takes_only_the_first_column_in_order() {
    let column = fetch_setof(&people()).unwrap();
    assert_eq!(
        column,
        vec![
            Some(AnyDatum::String("Anakin".to_string())),
            Some(AnyDatum::String("Luke".to_string())),
            Some(AnyDatum::String("Shmi".to_string())),
        ]
    );
}

#[test]
fn empty_setof_result_is_the_no_data_signal() {
    assert!(fetch_setof(&vec![]).is_none());
}

#[test]
fn null_first_columns_become_explicit_absences_in_setof() {
    let tuples = vec![
        HostTuple { cells: vec![null_cell(HostType::Text)] },
        HostTuple { cells: vec![text_cell("x")] },
    ];
    let column = fetch_setof(&tuples).unwrap();
    assert_eq!(column, vec![None, Some(AnyDatum::String("x".to_string()))]);
}

#[test]
fn scalar_with_no_rows_is_null_not_an_error() {
    assert_eq!(fetch_row(&vec![]), None);
}

#[test]
fn scalar_takes_the_first_column_of_the_first_row() {
    assert_eq!(fetch_row(&people()), Some(AnyDatum::String("Anakin".to_string())));
}

#[test]
fn scalar_of_a_null_cell_is_null() {
    let tuples = vec![HostTuple { cells: vec![null_cell(HostType::Int8)] }];
    assert_eq!(fetch_row(&tuples), None);
}

#[test]
fn heap_tuple_conversion_splits_values_and_null_flags() {
    let row = Row { datums: vec![Some(AnyDatum::I32(1)), None, Some(AnyDatum::Bool(true))] };
    let t = row.into_heap_tuple();
    assert_eq!(t.is_nulls, vec![false, true, false]);
    assert_eq!(t.datums, vec![Some(AnyDatum::I32(1)), None, Some(AnyDatum::Bool(true))]);
}

#[test]
fn tuple_ordinals_are_one_indexed() {
    let t = HostTuple { cells: vec![text_cell("a"), int_cell(2)] };
    assert_eq!(t.columns(), 2);
    assert_eq!(*t.get_datum_by_ordinal(1), text_cell("a"));
    assert_eq!(*t.get_datum_by_ordinal(2), int_cell(2));
}
