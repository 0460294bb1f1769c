use crate::anydatum::{AnyDatum, DatumView, HostType};
use crate::spi::{spec_heap_tuple, HeapTuple, Row};
use vstd::prelude::*;

verus! {

/// One column of the negotiated row schema: its name and host type.
#[derive(Debug)]
pub struct ColumnDef {
    pub name: String,
    pub ty: HostType,
}

pub struct ColumnDefView {
    pub name: Seq<char>,
    pub ty: HostType,
}

impl View for ColumnDef {
    type V = ColumnDefView;

    open spec fn view(&self) -> ColumnDefView {
        ColumnDefView { name: self.name@, ty: self.ty }
    }
}

impl DeepView for ColumnDef {
    type V = ColumnDefView;

    open spec fn deep_view(&self) -> ColumnDefView {
        self@
    }
}

/// The negotiated shape of a Table result, obtained once from the host per
/// invocation and reused for every row of that invocation.
#[derive(Debug)]
pub struct RowSchema {
    pub columns: Vec<ColumnDef>,
}

impl View for RowSchema {
    type V = Seq<ColumnDefView>;

    open spec fn view(&self) -> Seq<ColumnDefView> {
        self.columns.deep_view()
    }
}

/// The materialized collection a Table streaming invocation owns.
#[derive(Debug)]
pub struct Table {
    pub rows: Vec<Row>,
}

impl View for Table {
    type V = Seq<Seq<Option<DatumView>>>;

    open spec fn view(&self) -> Seq<Seq<Option<DatumView>>> {
        self.rows.deep_view()
    }
}

/// The materialized collection a SetOf streaming invocation owns.
#[derive(Debug)]
pub struct SetOf {
    pub records: Vec<Option<AnyDatum>>,
}

impl View for SetOf {
    type V = Seq<Option<DatumView>>;

    open spec fn view(&self) -> Seq<Option<DatumView>> {
        self.records.deep_view()
    }
}

/// The per-invocation state of a Table streaming session: the call counter,
/// the declared total, the row schema cached on the first call, and the
/// owned materialized collection while one exists. It models the host's
/// call-scoped state slot: exactly one exists per in-flight streaming
/// invocation, never shared.
pub struct TableSrfContext {
    pub call_cntr: u64,
    pub max_calls: u64,
    pub tuple_desc: RowSchema,
    pub state: Option<Table>,
}

impl TableSrfContext {
    /// The state slot is well formed: the counter never passes the declared
    /// total, the total equals the owned collection's length while the
    /// collection exists, and the collection exists while items remain.
    pub open spec fn wf(&self) -> bool {
        &&& self.call_cntr <= self.max_calls
        &&& (self.state is Some ==> self.max_calls == self.state->0@.len())
        &&& (self.call_cntr < self.max_calls ==> self.state is Some)
    }

    /// The first re-entrant call: cache the row schema, store the
    /// materialized rows, and start the cursor at zero. A "no data" fetch
    /// stores nothing and declares a total of zero at once.
    pub fn init(tuple_desc: RowSchema, fetched: Option<Vec<Row>>) -> (ctx: Self)
        ensures
            ctx.wf(),
            ctx.call_cntr == 0,
            ctx.tuple_desc == tuple_desc,
            fetched is Some ==> ctx.max_calls == fetched->0@.len() && ctx.state == (Option::Some(
                Table { rows: fetched->0 },
            )),
            fetched is None ==> ctx.max_calls == 0 && ctx.state is None,
    {
        match fetched {
            Option::Some(rows) => {
                let max_calls = rows.len() as u64;
                TableSrfContext {
                    call_cntr: 0,
                    max_calls,
                    tuple_desc,
                    state: Option::Some(Table { rows }),
                }
            },
            Option::None => TableSrfContext {
                call_cntr: 0,
                max_calls: 0,
                tuple_desc,
                state: Option::None,
            },
        }
    }
}

/// One step of a Table streaming session: the next row in its host binary
/// form together with the "more data available" signal, or the "no more
/// data" signal.
#[derive(Debug)]
pub enum TableStep {
    Emit(HeapTuple),
    Done,
}

/// Drive one re-entrant call of a Table streaming session. While items
/// remain, the row at the cursor is converted against the cached schema
/// into the host's row binary form, the cursor advances, and the host is
/// told to call again. On the call that observes exhaustion the owned
/// collection is released and the host is told to stop; the state is
/// unreachable from then on.
pub fn table_srf_next(ctx: &mut TableSrfContext) -> (step: TableStep)
    requires
        old(ctx).wf(),
    ensures
        final(ctx).wf(),
        final(ctx).max_calls == old(ctx).max_calls,
        final(ctx).tuple_desc == old(ctx).tuple_desc,
        old(ctx).call_cntr < old(ctx).max_calls ==> {
            &&& step is Emit
            &&& step->0@ == spec_heap_tuple(old(ctx).state->0@[old(ctx).call_cntr as int])
            &&& final(ctx).call_cntr == old(ctx).call_cntr + 1
            &&& final(ctx).state == old(ctx).state
        },
        old(ctx).call_cntr >= old(ctx).max_calls ==> {
            &&& step is Done
            &&& final(ctx).call_cntr == old(ctx).call_cntr
            &&& final(ctx).state is None
        },
{
    // Clean up if we've returned all rows
    if ctx.call_cntr >= ctx.max_calls {
        ctx.state = Option::None;
        return TableStep::Done;
    }
    // Get the row at the cursor and advance for the next call
    let row = match &ctx.state {
        Option::Some(table) => {
            let n = table.rows.len();
            proof {
                assert(ctx.call_cntr < n as u64);
            }
            let idx = ctx.call_cntr as usize;
            table.rows[idx].clone()
        },
        Option::None => unreached(),
    };
    ctx.call_cntr = ctx.call_cntr + 1;
    TableStep::Emit(row.into_heap_tuple())
}

/// The per-invocation state of a SetOf streaming session; see
/// [`TableSrfContext`]. No row schema is involved: records are single
/// values, emitted directly with NULL signaled explicitly.
pub struct SetOfSrfContext {
    pub call_cntr: u64,
    pub max_calls: u64,
    pub state: Option<SetOf>,
}

impl SetOfSrfContext {
    pub open spec fn wf(&self) -> bool {
        &&& self.call_cntr <= self.max_calls
        &&& (self.state is Some ==> self.max_calls == self.state->0@.len())
        &&& (self.call_cntr < self.max_calls ==> self.state is Some)
    }

    /// The first re-entrant call of a SetOf session; see
    /// [`TableSrfContext::init`].
    pub fn init(fetched: Option<Vec<Option<AnyDatum>>>) -> (ctx: Self)
        ensures
            ctx.wf(),
            ctx.call_cntr == 0,
            fetched is Some ==> ctx.max_calls == fetched->0@.len() && ctx.state == (Option::Some(
                SetOf { records: fetched->0 },
            )),
            fetched is None ==> ctx.max_calls == 0 && ctx.state is None,
    {
        match fetched {
            Option::Some(records) => {
                let max_calls = records.len() as u64;
                SetOfSrfContext { call_cntr: 0, max_calls, state: Option::Some(SetOf { records }) }
            },
            Option::None => SetOfSrfContext { call_cntr: 0, max_calls: 0, state: Option::None },
        }
    }
}

/// One step of a SetOf streaming session: the next record — absence means
/// an explicit NULL is signaled to the host — or the "no more data" signal.
#[derive(Debug)]
pub enum SetOfStep {
    Emit(Option<AnyDatum>),
    Done,
}

/// Drive one re-entrant call of a SetOf streaming session; the SetOf
/// counterpart of [`table_srf_next`].
pub fn setof_srf_next(ctx: &mut SetOfSrfContext) -> (step: SetOfStep)
    requires
        old(ctx).wf(),
    ensures
        final(ctx).wf(),
        final(ctx).max_calls == old(ctx).max_calls,
        old(ctx).call_cntr < old(ctx).max_calls ==> {
            &&& step is Emit
            &&& step->0.deep_view() == old(ctx).state->0@[old(ctx).call_cntr as int]
            &&& final(ctx).call_cntr == old(ctx).call_cntr + 1
            &&& final(ctx).state == old(ctx).state
        },
        old(ctx).call_cntr >= old(ctx).max_calls ==> {
            &&& step is Done
            &&& final(ctx).call_cntr == old(ctx).call_cntr
            &&& final(ctx).state is None
        },
{
    // Clean up if we've returned all records
    if ctx.call_cntr >= ctx.max_calls {
        ctx.state = Option::None;
        return SetOfStep::Done;
    }
    // Get the record at the cursor and advance for the next call
    let record = match &ctx.state {
        Option::Some(setof) => {
            let n = setof.records.len();
            proof {
                assert(ctx.call_cntr < n as u64);
            }
            let idx = ctx.call_cntr as usize;
            match &setof.records[idx] {
                Option::Some(d) => Option::Some(d.clone()),
                Option::None => Option::None,
            }
        },
        Option::None => unreached(),
    };
    ctx.call_cntr = ctx.call_cntr + 1;
    SetOfStep::Emit(record)
}

/// Cardinality of a Table streaming session, run from its first item to the
/// exhaustion signal: exactly as many items are emitted as were
/// materialized, each row in executor order in its host binary form, the
/// exhaustion signal comes exactly once, and the owned state is gone after
/// it.
pub fn run_table_session(ctx: &mut TableSrfContext) -> (emitted: Vec<HeapTuple>)
    requires
        old(ctx).wf(),
        old(ctx).call_cntr == 0,
    ensures
        emitted@.len() == old(ctx).max_calls,
        old(ctx).state is Some ==> forall|i: int|
            0 <= i < emitted@.len() ==> #[trigger] emitted@[i]@ == spec_heap_tuple(
                old(ctx).state->0@[i],
            ),
        old(ctx).state is None ==> emitted@.len() == 0,
        final(ctx).state is None,
{
    let mut emitted: Vec<HeapTuple> = Vec::new();
    while ctx.call_cntr < ctx.max_calls
        invariant
            ctx.wf(),
            ctx.max_calls == old(ctx).max_calls,
            ctx.state == old(ctx).state,
            emitted@.len() == ctx.call_cntr,
            forall|i: int|
                0 <= i < emitted@.len() ==> #[trigger] emitted@[i]@ == spec_heap_tuple(
                    old(ctx).state->0@[i],
                ),
        decreases ctx.max_calls - ctx.call_cntr,
    {
        match table_srf_next(ctx) {
            TableStep::Emit(t) => emitted.push(t),
            TableStep::Done => proof {
                assert(false);
            },
        }
    }
    // The call that observes exhaustion releases the state
    match table_srf_next(ctx) {
        TableStep::Done => emitted,
        TableStep::Emit(_) => unreached(),
    }
}

/// Cardinality of a SetOf streaming session; the SetOf counterpart of
/// [`run_table_session`].
pub fn run_setof_session(ctx: &mut SetOfSrfContext) -> (emitted: Vec<Option<AnyDatum>>)
    requires
        old(ctx).wf(),
        old(ctx).call_cntr == 0,
    ensures
        emitted@.len() == old(ctx).max_calls,
        old(ctx).state is Some ==> emitted.deep_view() == old(ctx).state->0@,
        old(ctx).state is None ==> emitted@.len() == 0,
        final(ctx).state is None,
{
    let mut emitted: Vec<Option<AnyDatum>> = Vec::new();
    while ctx.call_cntr < ctx.max_calls
        invariant
            ctx.wf(),
            ctx.max_calls == old(ctx).max_calls,
            ctx.state == old(ctx).state,
            emitted@.len() == ctx.call_cntr,
            forall|i: int|
                0 <= i < emitted@.len() ==> #[trigger] emitted@[i].deep_view() == old(
                    ctx,
                ).state->0@[i],
        decreases ctx.max_calls - ctx.call_cntr,
    {
        match setof_srf_next(ctx) {
            SetOfStep::Emit(record) => emitted.push(record),
            SetOfStep::Done => proof {
                assert(false);
            },
        }
    }
    // The call that observes exhaustion releases the state
    match setof_srf_next(ctx) {
        SetOfStep::Done => {
            proof {
                if old(ctx).state is Some {
                    assert(emitted.deep_view() =~= old(ctx).state->0@);
                }
            }
            emitted
        },
        SetOfStep::Emit(_) => unreached(),
    }
}

} // verus!
