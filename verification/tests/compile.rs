use plprql::anydatum::{AnyDatum, HostType};
use plprql::err::PlprqlError;
use plprql::fun::{ArgMode, FmgrInfo, Function, FunctionCallInfo, PgCatalog, PgProc};
use plprql::plprql::{plan_invocation, prql_to_sql};

#[test]
fn prql_compiles_to_the_host_dialect() {
    let sql = prql_to_sql("from employees | select {name, age}").unwrap();
    assert_eq!(sql, "SELECT name, age FROM employees");
}

#[test]
fn a_filter_compiles_to_a_where_clause() {
    let sql = prql_to_sql("from people | filter planet_id == 1 | select {name}").unwrap();
    assert!(sql.contains("WHERE"));
    assert!(sql.contains("planet_id = 1"));
}

#[test]
fn a_rejected_body_surfaces_the_compiler_diagnostics() {
    let r = prql_to_sql("this is | not prql at all %%%");
    match r {
        Err(PlprqlError::PrqlError(msg)) => assert!(!msg.is_empty()),
        other => panic!("expected a compilation error, got {other:?}"),
    }
}

#[test]
fn planning_compiles_the_body_and_binds_the_arguments() {
    // A descriptor declaring two arguments whose body compiles to a
    // filter-and-project query.
    let proc = PgProc {
        oid: 31,
        proargtypes: vec![HostType::Text, HostType::Int4],
        proargmodes: vec![ArgMode::In, ArgMode::In],
        prosrc: "from people | filter planet_id == 1 | select {name, height}".to_string(),
        proretset: true,
    };
    let ci = FunctionCallInfo {
        flinfo: Some(FmgrInfo { fn_oid: 31 }),
        args: vec![Some(AnyDatum::String("Tatooine".to_string())), None],
    };
    let catalog = PgCatalog { procs: vec![proc] };
    let f = Function::from_call_info(Some(&ci), &catalog).unwrap();
    let (sql, bound) = plan_invocation(&f).unwrap();
    assert!(sql.starts_with("SELECT"));
    assert!(sql.contains("WHERE"));
    // the executor receives one NULL-bound parameter
    let bound = bound.unwrap();
    assert_eq!(bound.len(), 2);
    assert_eq!(bound[0].1, Some(AnyDatum::String("Tatooine".to_string())));
    assert_eq!(bound[1].1, None);
}

#[test]
fn planning_fails_on_a_body_the_compiler_rejects() {
    let proc = PgProc {
        oid: 32,
        proargtypes: vec![],
        proargmodes: vec![],
        prosrc: "definitely %% not prql".to_string(),
        proretset: false,
    };
    let f = Function { pg_proc: proc, args: vec![] };
    assert!(matches!(plan_invocation(&f), Err(PlprqlError::PrqlError(_))));
}
