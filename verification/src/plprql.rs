use crate::anydatum::{AnyDatum, HostType};
use crate::err::{PlprqlError, PlprqlResult};
use crate::fun::Function;
use vstd::prelude::*;

verus! {

#[verifier::external_type_specification]
#[verifier::external_body]
pub struct ExErrorMessages(prqlc::ErrorMessages);

/// Relies on prqlc::compile with a fixed configuration (SQL in the host's
/// dialect, unformatted, no signature comment, plain diagnostics): it hands
/// back either the compiled SQL or the compiler's diagnostics. Nothing more
/// is assumed. In particular, the compiler consults its own version — which
/// the environment can override — for sources that pin one, so neither
/// success nor the returned text is a function of the source text alone;
/// the callers carry whatever came back.
#[verifier::external_body]
fn compile_prql(prql: &str) -> Result<String, prqlc::ErrorMessages> {
    let options = prqlc::Options {
        format: false,
        target: prqlc::Target::Sql(Some(prqlc::sql::Dialect::Postgres)),
        signature_comment: false,
        color: false,
        display: prqlc::DisplayOptions::Plain,
    };
    prqlc::compile(prql, &options)
}

/// Relies on the Display impl of prqlc::ErrorMessages to render the
/// compiler's diagnostics as text; nothing is assumed of the rendering.
#[verifier::external_body]
fn error_messages_text(e: &prqlc::ErrorMessages) -> String {
    format!("{}", e)
}

/// Compile PRQL source text to SQL in the host's dialect. The compiler
/// collaborator decides acceptance; whatever it decides, a success carries
/// its SQL and a rejection surfaces its diagnostics as a compilation
/// error, never any other failure.
pub fn prql_to_sql(prql: &str) -> (r: PlprqlResult<String>)
    ensures
        r is Err ==> r->Err_0 is PrqlError,
{
    match compile_prql(prql) {
        Result::Ok(sql) => Result::Ok(sql),
        Result::Err(e) => Result::Err(PlprqlError::PrqlError(error_messages_text(&e))),
    }
}

/// The compute-only prefix every materialization shares, whatever the
/// return shape: compile the descriptor's body text and bind the declared
/// arguments positionally. The boundary hands both to the host's query
/// executor; the executor's tuples are then collected into one of the
/// three shapes. The compiler alone decides whether the body is accepted;
/// on acceptance the bound list pairs each declared type with its bound
/// value at its position, and on rejection the invocation fails with the
/// compiler's diagnostics and nothing else, executing nothing.
pub fn plan_invocation(f: &Function) -> (r: PlprqlResult<
    (String, Option<Vec<(HostType, Option<AnyDatum>)>>),
>)
    requires
        f.args@.len() >= f.pg_proc.proargtypes@.len(),
    ensures
        r is Ok ==> {
            let bound = r->Ok_0.1;
            &&& (f.pg_proc.proargtypes@.len() == 0 ==> bound is None)
            &&& (f.pg_proc.proargtypes@.len() > 0 ==> {
                &&& bound is Some
                &&& bound->0@.len() == f.pg_proc.proargtypes@.len()
                &&& forall|i: int|
                    0 <= i < f.pg_proc.proargtypes@.len() ==> (#[trigger] bound->0@[i]).0
                        == f.pg_proc.proargtypes@[i] && bound->0@[i].1.deep_view() == f@.args[i]
            })
        },
        r is Err ==> r->Err_0 is PrqlError,
{
    let body = f.body();
    let sql = match prql_to_sql(body.as_str()) {
        Result::Ok(sql) => sql,
        Result::Err(e) => {
            return Result::Err(e);
        },
    };
    match f.arguments() {
        Result::Ok(bound) => Result::Ok((sql, bound)),
        Result::Err(e) => Result::Err(e),
    }
}

} // verus!
