use crate::anydatum::{AnyDatum, CellView, DatumView, HostCell};
use vstd::prelude::*;

verus! {

/// One row of host cells as the query executor produced it. Ordinals are
/// 1-indexed, as the host counts columns.
#[derive(Debug)]
pub struct HostTuple {
    pub cells: Vec<HostCell>,
}

impl View for HostTuple {
    type V = Seq<CellView>;

    open spec fn view(&self) -> Seq<CellView> {
        self.cells.deep_view()
    }
}

impl DeepView for HostTuple {
    type V = Seq<CellView>;

    open spec fn deep_view(&self) -> Seq<CellView> {
        self@
    }
}

impl HostTuple {
    /// How many columns the tuple carries.
    pub fn columns(&self) -> (n: usize)
        ensures
            n == self@.len(),
    {
        self.cells.len()
    }

    /// The cell at a 1-indexed column ordinal.
    pub fn get_datum_by_ordinal(&self, ordinal: usize) -> (r: &HostCell)
        requires
            1 <= ordinal <= self@.len(),
        ensures
            r@ == self@[ordinal - 1],
    {
        &self.cells[ordinal - 1]
    }
}

/// One result row: an ordered sequence of possibly absent values, one per
/// output column, positionally aligned with the row schema. Rows are
/// produced once by materialization and never mutated.
#[derive(Debug, PartialEq)]
pub struct Row {
    pub datums: Vec<Option<AnyDatum>>,
}

impl View for Row {
    type V = Seq<Option<DatumView>>;

    open spec fn view(&self) -> Seq<Option<DatumView>> {
        self.datums.deep_view()
    }
}

impl DeepView for Row {
    type V = Seq<Option<DatumView>>;

    open spec fn deep_view(&self) -> Seq<Option<DatumView>> {
        self@
    }
}

/// Clone a vector of possibly absent values.
pub(crate) fn clone_opt_datum_vec(v: &Vec<Option<AnyDatum>>) -> (r: Vec<Option<AnyDatum>>)
    ensures
        r.deep_view() == v.deep_view(),
{
    let mut r: Vec<Option<AnyDatum>> = Vec::new();
    let mut i: usize = 0;
    while i < v.len()
        invariant
            i <= v.len(),
            r@.len() == i,
            forall|j: int| 0 <= j < i ==> r@[j].deep_view() == #[trigger] v@[j].deep_view(),
        decreases v.len() - i,
    {
        match &v[i] {
            Option::Some(d) => r.push(Option::Some(d.clone())),
            Option::None => r.push(Option::None),
        }
        i = i + 1;
    }
    proof {
        assert(r.deep_view() =~= v.deep_view());
    }
    r
}

impl Clone for Row {
    fn clone(&self) -> (res: Self)
        ensures
            res@ == self@,
    {
        Row { datums: clone_opt_datum_vec(&self.datums) }
    }
}

/// The host's row binary form, as the pieces this component computes for
/// it: one slot per column holding the value for non-NULL columns and
/// nothing for NULL ones, and the parallel null flags. The boundary hands
/// both arrays to the host's tuple constructor.
#[derive(Debug, PartialEq)]
pub struct HeapTuple {
    pub datums: Vec<Option<AnyDatum>>,
    pub is_nulls: Vec<bool>,
}

pub struct HeapTupleView {
    pub datums: Seq<Option<DatumView>>,
    pub is_nulls: Seq<bool>,
}

impl View for HeapTuple {
    type V = HeapTupleView;

    open spec fn view(&self) -> HeapTupleView {
        HeapTupleView { datums: self.datums.deep_view(), is_nulls: self.is_nulls@ }
    }
}

/// The row binary form a result row converts to: the values positionally
/// as they stand, and a null flag exactly where a column is absent.
pub open spec fn spec_heap_tuple(row: Seq<Option<DatumView>>) -> HeapTupleView {
    HeapTupleView {
        datums: row,
        is_nulls: Seq::new(row.len(), |i: int| row[i] is None),
    }
}

impl Row {
    /// Split the row into the parallel value and null arrays the host's
    /// tuple constructor takes.
    pub fn into_heap_tuple(self) -> (r: HeapTuple)
        ensures
            r@ == spec_heap_tuple(self@),
    {
        let ghost orig = self@;
        let mut datums: Vec<Option<AnyDatum>> = Vec::new();
        let mut is_nulls: Vec<bool> = Vec::new();
        let mut rest = self.datums;
        let mut i: usize = 0;
        let n = rest.len();
        while i < n
            invariant
                i <= n,
                n == rest.len(),
                rest.deep_view() == orig,
                datums@.len() == i,
                is_nulls@.len() == i,
                forall|j: int| 0 <= j < i ==> datums@[j].deep_view() == #[trigger] orig[j],
                forall|j: int| 0 <= j < i ==> is_nulls@[j] == (#[trigger] orig[j] is None),
            decreases n - i,
        {
            match &rest[i] {
                Option::Some(d) => {
                    datums.push(Option::Some(d.clone()));
                    is_nulls.push(false);
                },
                Option::None => {
                    datums.push(Option::None);
                    is_nulls.push(true);
                },
            }
            i = i + 1;
        }
        let r = HeapTuple { datums, is_nulls };
        proof {
            assert(r@.datums =~= spec_heap_tuple(orig).datums);
            assert(r@.is_nulls =~= spec_heap_tuple(orig).is_nulls);
        }
        r
    }
}

/// What marshaling every cell of an executor tuple yields: the row of
/// possibly absent values, in the tuple's own column order.
pub open spec fn spec_marshal_tuple(t: Seq<CellView>) -> Seq<Option<DatumView>> {
    Seq::new(t.len(), |i: int| crate::anydatum::spec_to_value(t[i]))
}

/// What marshaling a whole executor result yields: one row per tuple, in
/// the executor's own row order.
pub open spec fn spec_marshal_rows(ts: Seq<Seq<CellView>>) -> Seq<Seq<Option<DatumView>>> {
    Seq::new(ts.len(), |i: int| spec_marshal_tuple(ts[i]))
}

/// What marshaling only the first column of every tuple yields.
pub open spec fn spec_marshal_column(ts: Seq<Seq<CellView>>) -> Seq<Option<DatumView>> {
    Seq::new(ts.len(), |i: int| crate::anydatum::spec_to_value(ts[i][0]))
}

/// Marshal one executor tuple into a result row, every ordinal column in
/// order.
pub fn marshal_tuple(t: &HostTuple) -> (row: Row)
    ensures
        row@ == spec_marshal_tuple(t@),
{
    let mut datums: Vec<Option<AnyDatum>> = Vec::new();
    let n = t.columns();
    let mut i: usize = 0;
    while i < n
        invariant
            i <= n,
            n == t@.len(),
            datums@.len() == i,
            forall|j: int| 0 <= j < i ==> datums@[j].deep_view() == #[trigger] spec_marshal_tuple(
                t@,
            )[j],
        decreases n - i,
    {
        // Ordinals are 1-indexed
        let cell = t.get_datum_by_ordinal(i + 1).clone();
        datums.push(AnyDatum::from_polymorphic_datum(cell));
        i = i + 1;
    }
    let row = Row { datums };
    proof {
        assert(row@ =~= spec_marshal_tuple(t@));
    }
    row
}

/// Collect a full-table result: every tuple becomes a row with every
/// ordinal column marshaled, preserving the executor's row order and each
/// row's column order exactly. An empty result is the distinct "no data"
/// signal, not an empty collection.
pub fn fetch_table(tuples: &Vec<HostTuple>) -> (r: Option<Vec<Row>>)
    ensures
        r is Some <==> tuples@.len() > 0,
        r is Some ==> r->0.deep_view() == spec_marshal_rows(tuples.deep_view()),
{
    let mut rows: Vec<Row> = Vec::new();
    let n = tuples.len();
    let mut i: usize = 0;
    while i < n
        invariant
            i <= n,
            n == tuples@.len(),
            rows@.len() == i,
            forall|j: int| 0 <= j < i ==> rows@[j].deep_view() == #[trigger] spec_marshal_rows(
                tuples.deep_view(),
            )[j],
        decreases n - i,
    {
        rows.push(marshal_tuple(&tuples[i]));
        i = i + 1;
    }
    if rows.is_empty() {
        return Option::None;
    }
    proof {
        assert(rows.deep_view() =~= spec_marshal_rows(tuples.deep_view()));
    }
    Option::Some(rows)
}

/// Collect a single-column result: only the first ordinal of every tuple is
/// marshaled, in executor order. An empty result is the "no data" signal.
pub fn fetch_setof(tuples: &Vec<HostTuple>) -> (r: Option<Vec<Option<AnyDatum>>>)
    requires
        forall|i: int| 0 <= i < tuples@.len() ==> (#[trigger] tuples@[i]@).len() >= 1,
    ensures
        r is Some <==> tuples@.len() > 0,
        r is Some ==> r->0.deep_view() == spec_marshal_column(tuples.deep_view()),
{
    let mut column: Vec<Option<AnyDatum>> = Vec::new();
    let n = tuples.len();
    let mut i: usize = 0;
    while i < n
        invariant
            i <= n,
            n == tuples@.len(),
            forall|k: int| 0 <= k < tuples@.len() ==> (#[trigger] tuples@[k]@).len() >= 1,
            column@.len() == i,
            forall|j: int| 0 <= j < i ==> column@[j].deep_view() == #[trigger] spec_marshal_column(
                tuples.deep_view(),
            )[j],
        decreases n - i,
    {
        // Ordinals are 1-indexed
        let cell = tuples[i].get_datum_by_ordinal(1).clone();
        column.push(AnyDatum::from_polymorphic_datum(cell));
        i = i + 1;
    }
    if column.is_empty() {
        return Option::None;
    }
    proof {
        assert(column.deep_view() =~= spec_marshal_column(tuples.deep_view()));
    }
    Option::Some(column)
}

/// Collect a scalar result: the first column of the first tuple, marshaled.
/// A result with no rows yields absence — a NULL scalar, not an error.
pub fn fetch_row(tuples: &Vec<HostTuple>) -> (r: Option<AnyDatum>)
    requires
        tuples@.len() > 0 ==> tuples@[0]@.len() >= 1,
    ensures
        tuples@.len() == 0 ==> r is None,
        tuples@.len() > 0 ==> r.deep_view() == crate::anydatum::spec_to_value(tuples@[0]@[0]),
{
    if tuples.len() == 0 {
        return Option::None;
    }
    let cell = tuples[0].get_datum_by_ordinal(1).clone();
    AnyDatum::from_polymorphic_datum(cell)
}

} // verus!
