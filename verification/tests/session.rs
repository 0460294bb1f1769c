use plprql::anydatum::{AnyDatum, HostCell, HostType};
use plprql::spi::{fetch_setof, fetch_table, HostTuple};
use plprql::srf::{
    run_setof_session, run_table_session, setof_srf_next, table_srf_next, ColumnDef, RowSchema,
    SetOfSrfContext, SetOfStep, TableSrfContext, TableStep,
};

fn text_cell(s: &str) -> HostCell {
    HostCell { ty: HostType::Text, datum: Some(AnyDatum::String(s.to_string())) }
}

fn int_cell(n: i32) -> HostCell {
    HostCell { ty: HostType::Int4, datum: Some(AnyDatum::I32(n)) }
}

fn schema() -> RowSchema {
    RowSchema {
        columns: vec![
            ColumnDef { name: "name".to_string(), ty: HostType::Text },
            ColumnDef { name: "height".to_string(), ty: HostType::Int4 },
        ],
    }
}

fn people() -> Vec<HostTuple> {
    vec![
        HostTuple { cells: vec![text_cell("Anakin"), int_cell(188)] },
        HostTuple { cells: vec![text_cell("Luke"), int_cell(172)] },
        HostTuple { cells: vec![text_cell("Shmi"), int_cell(163)] },
    ]
}

#[test]
fn table_streaming_emits_every_row_in_executor_order_then_exhausts() {
    let fetched = fetch_table(&people());
    let mut ctx = TableSrfContext::init(schema(), fetched);
    assert_eq!(ctx.max_calls, 3);

    let names = ["Anakin", "Luke", "Shmi"];
    let heights = [188, 172, 163];
    for i in 0..3 {
        match table_srf_next(&mut ctx) {
            TableStep::Emit(t) => {
                assert_eq!(t.is_nulls, vec![false, false]);
                assert_eq!(t.datums[0], Some(AnyDatum::String(names[i].to_string())));
                assert_eq!(t.datums[1], Some(AnyDatum::I32(heights[i])));
            },
            TableStep::Done => panic!("exhausted after {i} rows"),
        }
    }
    // the call that observes exhaustion releases the owned state
    assert!(ctx.state.is_some());
    assert!(matches!(table_srf_next(&mut ctx), TableStep::Done));
    assert!(ctx.state.is_none());
    // a host that keeps calling keeps being told to stop
    assert!(matches!(table_srf_next(&mut ctx), TableStep::Done));
}

#[test]
fn table_session_cardinality_matches_the_materialized_collection() {
    let fetched = fetch_table(&people());
    let mut ctx = TableSrfContext::init(schema(), fetched);
    let emitted = run_table_session(&mut ctx);
    assert_eq!(emitted.len(), 3);
    assert!(ctx.state.is_none());
}

#[test]
fn empty_table_fetch_declares_zero_cardinality_without_state() {
    let fetched = fetch_table(&vec![]);
    assert!(fetched.is_none());
    let mut ctx = TableSrfContext::init(schema(), fetched);
    assert_eq!(ctx.max_calls, 0);
    assert!(ctx.state.is_none());
    assert!(matches!(table_srf_next(&mut ctx), TableStep::Done));
}

#[test]
fn setof_streaming_emits_every_record_with_explicit_nulls() {
    let tuples = vec![
        HostTuple { cells: vec![text_cell("a")] },
        HostTuple { cells: vec![HostCell { ty: HostType::Text, datum: None }] },
        HostTuple { cells: vec![text_cell("b")] },
    ];
    let mut ctx = SetOfSrfContext::init(fetch_setof(&tuples));
    assert_eq!(ctx.max_calls, 3);
    match setof_srf_next(&mut ctx) {
        SetOfStep::Emit(r) => assert_eq!(r, Some(AnyDatum::String("a".to_string()))),
        SetOfStep::Done => panic!("exhausted early"),
    }
    match setof_srf_next(&mut ctx) {
        SetOfStep::Emit(r) => assert_eq!(r, None),
        SetOfStep::Done => panic!("exhausted early"),
    }
    match setof_srf_next(&mut ctx) {
        SetOfStep::Emit(r) => assert_eq!(r, Some(AnyDatum::String("b".to_string()))),
        SetOfStep::Done => panic!("exhausted early"),
    }
    assert!(matches!(setof_srf_next(&mut ctx), SetOfStep::Done));
    assert!(ctx.state.is_none());
}

#[test]
fn setof_with_zero_rows_signals_no_data_at_once_with_no_state() {
    let fetched = fetch_setof(&vec![]);
    assert!(fetched.is_none());
    let mut ctx = SetOfSrfContext::init(fetched);
    assert_eq!(ctx.max_calls, 0);
    assert!(ctx.state.is_none());
    assert!(matches!(setof_srf_next(&mut ctx), SetOfStep::Done));
    assert!(ctx.state.is_none());
}

#[test]
fn setof_session_cardinality_matches_the_materialized_collection() {
    let tuples = vec![
        HostTuple { cells: vec![text_cell("x")] },
        HostTuple { cells: vec![text_cell("y")] },
    ];
    let mut ctx = SetOfSrfContext::init(fetch_setof(&tuples));
    let emitted = run_setof_session(&mut ctx);
    assert_eq!(
        emitted,
        vec![
            Some(AnyDatum::String("x".to_string())),
            Some(AnyDatum::String("y".to_string())),
        ]
    );
    assert!(ctx.state.is_none());
}
