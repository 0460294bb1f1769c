use vstd::prelude::*;

verus! {

/// The runtime type tag of a host cell: the closed set of host types the
/// marshaler understands, plus `Other` for every tag outside it.
#[derive(Clone, Copy, Debug, PartialEq, Eq, Structural)]
pub enum HostType {
    Bool,
    Char,
    Int2,
    Float4,
    Int4,
    Float8,
    Int8,
    Numeric,
    Text,
    Date,
    Time,
    Timestamp,
    Timestamptz,
    Interval,
    Jsonb,
    Uuid,
    BoolArray,
    Int2Array,
    Int4Array,
    Int8Array,
    Float4Array,
    Float8Array,
    TextArray,
    Varchar,
    Other(u32),
}

/// A single-precision float value as it crosses the boundary: its exact bit
/// pattern, and the decimal rendering the host side produced for it.
/// Verified code never computes with floats, so both facets are carried as
/// plain values and the boundary keeps them consistent.
#[derive(Debug, PartialEq)]
pub struct Float4 {
    pub bits: u32,
    pub text: String,
}

/// A double-precision float value at the boundary; see [`Float4`].
#[derive(Debug, PartialEq)]
pub struct Float8 {
    pub bits: u64,
    pub text: String,
}

pub struct Float4View {
    pub bits: u32,
    pub text: Seq<char>,
}

pub struct Float8View {
    pub bits: u64,
    pub text: Seq<char>,
}

impl View for Float4 {
    type V = Float4View;

    open spec fn view(&self) -> Float4View {
        Float4View { bits: self.bits, text: self.text@ }
    }
}

impl DeepView for Float4 {
    type V = Float4View;

    open spec fn deep_view(&self) -> Float4View {
        self@
    }
}

impl View for Float8 {
    type V = Float8View;

    open spec fn view(&self) -> Float8View {
        Float8View { bits: self.bits, text: self.text@ }
    }
}

impl DeepView for Float8 {
    type V = Float8View;

    open spec fn deep_view(&self) -> Float8View {
        self@
    }
}

impl Clone for Float4 {
    fn clone(&self) -> (res: Self)
        ensures
            res == *self,
    {
        Float4 { bits: self.bits, text: self.text.clone() }
    }
}

impl Clone for Float8 {
    fn clone(&self) -> (res: Self)
        ensures
            res == *self,
    {
        Float8 { bits: self.bits, text: self.text.clone() }
    }
}

/// An interval in the host's own decomposition: months and days are kept
/// apart from the sub-day part because their lengths vary by calendar.
#[derive(Clone, Copy, Debug, PartialEq, Eq, Structural)]
pub struct IntervalValue {
    pub months: i32,
    pub days: i32,
    pub micros: i64,
}

/// The closed, tagged set of native value kinds the bridge marshals. A value
/// never represents NULL itself: absence is an `Option<AnyDatum>` one level
/// up. Array variants carry individually nullable elements.
///
/// Temporal kinds carry the host's own plain encodings: days since the
/// host epoch for dates, microseconds since midnight for times-of-day,
/// microseconds since the host epoch for timestamps (the zoned variant in
/// UTC), and the months/days/microseconds decomposition for intervals.
/// Arbitrary-precision decimals, documents and unique identifiers carry
/// their canonical text or 128-bit form.
#[derive(Debug, PartialEq)]
pub enum AnyDatum {
    Bool(bool),
    I8(i8),
    I16(i16),
    F32(Float4),
    I32(i32),
    F64(Float8),
    I64(i64),
    Numeric(String),
    String(String),
    Date(i32),
    Time(i64),
    Timestamp(i64),
    Timestamptz(i64),
    Interval(IntervalValue),
    Json(String),
    Uuid(u128),
    BoolArray(Vec<Option<bool>>),
    I16Array(Vec<Option<i16>>),
    I32Array(Vec<Option<i32>>),
    I64Array(Vec<Option<i64>>),
    F32Array(Vec<Option<Float4>>),
    F64Array(Vec<Option<Float8>>),
    StringArray(Vec<Option<String>>),
}

/// The mathematical value of an [`AnyDatum`]: strings as character
/// sequences, vectors as sequences.
pub enum DatumView {
    Bool(bool),
    I8(i8),
    I16(i16),
    F32(Float4View),
    I32(i32),
    F64(Float8View),
    I64(i64),
    Numeric(Seq<char>),
    String(Seq<char>),
    Date(i32),
    Time(i64),
    Timestamp(i64),
    Timestamptz(i64),
    Interval(IntervalValue),
    Json(Seq<char>),
    Uuid(u128),
    BoolArray(Seq<Option<bool>>),
    I16Array(Seq<Option<i16>>),
    I32Array(Seq<Option<i32>>),
    I64Array(Seq<Option<i64>>),
    F32Array(Seq<Option<Float4View>>),
    F64Array(Seq<Option<Float8View>>),
    StringArray(Seq<Option<Seq<char>>>),
}

impl View for AnyDatum {
    type V = DatumView;

    open spec fn view(&self) -> DatumView {
        match self {
            AnyDatum::Bool(v) => DatumView::Bool(*v),
            AnyDatum::I8(v) => DatumView::I8(*v),
            AnyDatum::I16(v) => DatumView::I16(*v),
            AnyDatum::F32(v) => DatumView::F32(v@),
            AnyDatum::I32(v) => DatumView::I32(*v),
            AnyDatum::F64(v) => DatumView::F64(v@),
            AnyDatum::I64(v) => DatumView::I64(*v),
            AnyDatum::Numeric(v) => DatumView::Numeric(v@),
            AnyDatum::String(v) => DatumView::String(v@),
            AnyDatum::Date(v) => DatumView::Date(*v),
            AnyDatum::Time(v) => DatumView::Time(*v),
            AnyDatum::Timestamp(v) => DatumView::Timestamp(*v),
            AnyDatum::Timestamptz(v) => DatumView::Timestamptz(*v),
            AnyDatum::Interval(v) => DatumView::Interval(*v),
            AnyDatum::Json(v) => DatumView::Json(v@),
            AnyDatum::Uuid(v) => DatumView::Uuid(*v),
            AnyDatum::BoolArray(v) => DatumView::BoolArray(v.deep_view()),
            AnyDatum::I16Array(v) => DatumView::I16Array(v.deep_view()),
            AnyDatum::I32Array(v) => DatumView::I32Array(v.deep_view()),
            AnyDatum::I64Array(v) => DatumView::I64Array(v.deep_view()),
            AnyDatum::F32Array(v) => DatumView::F32Array(v.deep_view()),
            AnyDatum::F64Array(v) => DatumView::F64Array(v.deep_view()),
            AnyDatum::StringArray(v) => DatumView::StringArray(v.deep_view()),
        }
    }
}

impl DeepView for AnyDatum {
    type V = DatumView;

    open spec fn deep_view(&self) -> DatumView {
        self@
    }
}

/// The host type tag under which a value of each kind crosses back into the
/// host: the marshaler's choice of native constructor.
pub open spec fn spec_type_of(v: DatumView) -> HostType {
    match v {
        DatumView::Bool(_) => HostType::Bool,
        DatumView::I8(_) => HostType::Char,
        DatumView::I16(_) => HostType::Int2,
        DatumView::F32(_) => HostType::Float4,
        DatumView::I32(_) => HostType::Int4,
        DatumView::F64(_) => HostType::Float8,
        DatumView::I64(_) => HostType::Int8,
        DatumView::Numeric(_) => HostType::Numeric,
        DatumView::String(_) => HostType::Text,
        DatumView::Date(_) => HostType::Date,
        DatumView::Time(_) => HostType::Time,
        DatumView::Timestamp(_) => HostType::Timestamp,
        DatumView::Timestamptz(_) => HostType::Timestamptz,
        DatumView::Interval(_) => HostType::Interval,
        DatumView::Json(_) => HostType::Jsonb,
        DatumView::Uuid(_) => HostType::Uuid,
        DatumView::BoolArray(_) => HostType::BoolArray,
        DatumView::I16Array(_) => HostType::Int2Array,
        DatumView::I32Array(_) => HostType::Int4Array,
        DatumView::I64Array(_) => HostType::Int8Array,
        DatumView::F32Array(_) => HostType::Float4Array,
        DatumView::F64Array(_) => HostType::Float8Array,
        DatumView::StringArray(_) => HostType::TextArray,
    }
}

pub open spec fn spec_is_array(v: DatumView) -> bool {
    match v {
        DatumView::BoolArray(_) => true,
        DatumView::I16Array(_) => true,
        DatumView::I32Array(_) => true,
        DatumView::I64Array(_) => true,
        DatumView::F32Array(_) => true,
        DatumView::F64Array(_) => true,
        DatumView::StringArray(_) => true,
        _ => false,
    }
}

pub open spec fn host_type_is_array(t: HostType) -> bool {
    match t {
        HostType::BoolArray => true,
        HostType::Int2Array => true,
        HostType::Int4Array => true,
        HostType::Int8Array => true,
        HostType::Float4Array => true,
        HostType::Float8Array => true,
        HostType::TextArray => true,
        _ => false,
    }
}

/// The host types this marshaler accepts at binding sites.
pub open spec fn host_type_supported(t: HostType) -> bool {
    !(t is Other)
}

/// Whether a cell declared with tag `t` decodes to value `v`: each supported
/// tag accepts exactly the matching kind, and the host's variable-length
/// character type decodes to the same native string kind as its text type.
pub open spec fn type_accepts(t: HostType, v: DatumView) -> bool {
    t == spec_type_of(v) || (t is Varchar && v is String)
}

/// A host cell: the host's dynamically-typed value representation at one
/// column position — a runtime type tag and a possibly absent payload.
/// An absent payload models a SQL NULL cell.
#[derive(Debug, PartialEq)]
pub struct HostCell {
    pub ty: HostType,
    pub datum: Option<AnyDatum>,
}

pub struct CellView {
    pub ty: HostType,
    pub datum: Option<DatumView>,
}

impl View for HostCell {
    type V = CellView;

    open spec fn view(&self) -> CellView {
        CellView { ty: self.ty, datum: self.datum.deep_view() }
    }
}

impl DeepView for HostCell {
    type V = CellView;

    open spec fn deep_view(&self) -> CellView {
        self@
    }
}

/// What marshaling a host cell into a native value yields: absence for a
/// NULL cell, absence for an unmapped or mismatched tag, and the payload
/// itself otherwise. Nothing silently downcasts or truncates. A NULL array
/// cell is handed to the non-null conversion path, which finds no payload
/// and yields absence as well.
pub open spec fn spec_to_value(c: CellView) -> Option<DatumView> {
    match c.datum {
        Option::None => Option::None,
        Option::Some(v) => if type_accepts(c.ty, v) {
            Option::Some(v)
        } else {
            Option::None
        },
    }
}

/// What marshaling a native value back into a host cell yields: the
/// matching host constructor applied to the value.
pub open spec fn spec_from_value(v: DatumView) -> CellView {
    CellView { ty: spec_type_of(v), datum: Option::Some(v) }
}

impl AnyDatum {
    /// Check if the value is an array kind.
    pub fn is_array(&self) -> (r: bool)
        ensures
            r == spec_is_array(self@),
    {
        matches!(
            self,
            AnyDatum::BoolArray(_)
                | AnyDatum::I16Array(_)
                | AnyDatum::I32Array(_)
                | AnyDatum::I64Array(_)
                | AnyDatum::F32Array(_)
                | AnyDatum::F64Array(_)
                | AnyDatum::StringArray(_)
        )
    }

    /// The host type tag under which this value crosses back into the host.
    pub fn type_of(&self) -> (r: HostType)
        ensures
            r == spec_type_of(self@),
    {
        match self {
            AnyDatum::Bool(_) => HostType::Bool,
            AnyDatum::I8(_) => HostType::Char,
            AnyDatum::I16(_) => HostType::Int2,
            AnyDatum::F32(_) => HostType::Float4,
            AnyDatum::I32(_) => HostType::Int4,
            AnyDatum::F64(_) => HostType::Float8,
            AnyDatum::I64(_) => HostType::Int8,
            AnyDatum::Numeric(_) => HostType::Numeric,
            AnyDatum::String(_) => HostType::Text,
            AnyDatum::Date(_) => HostType::Date,
            AnyDatum::Time(_) => HostType::Time,
            AnyDatum::Timestamp(_) => HostType::Timestamp,
            AnyDatum::Timestamptz(_) => HostType::Timestamptz,
            AnyDatum::Interval(_) => HostType::Interval,
            AnyDatum::Json(_) => HostType::Jsonb,
            AnyDatum::Uuid(_) => HostType::Uuid,
            AnyDatum::BoolArray(_) => HostType::BoolArray,
            AnyDatum::I16Array(_) => HostType::Int2Array,
            AnyDatum::I32Array(_) => HostType::Int4Array,
            AnyDatum::I64Array(_) => HostType::Int8Array,
            AnyDatum::F32Array(_) => HostType::Float4Array,
            AnyDatum::F64Array(_) => HostType::Float8Array,
            AnyDatum::StringArray(_) => HostType::TextArray,
        }
    }

    /// Which host runtime types the marshaler accepts; the host uses this to
    /// validate binding sites.
    pub fn is_compatible_with(other: HostType) -> (r: bool)
        ensures
            r == host_type_supported(other),
    {
        !matches!(other, HostType::Other(_))
    }

    /// Marshal a host cell into a native value: NULL and unmapped tags yield
    /// absence, everything else the decoded payload.
    pub fn from_polymorphic_datum(cell: HostCell) -> (r: Option<AnyDatum>)
        ensures
            r.deep_view() == spec_to_value(cell@),
    {
        match cell.datum {
            Option::None => Option::None,
            Option::Some(v) => {
                let matching = cell.ty == v.type_of()
                    || (matches!(cell.ty, HostType::Varchar) && matches!(v, AnyDatum::String(_)));
                if matching {
                    Option::Some(v)
                } else {
                    Option::None
                }
            },
        }
    }

    /// Marshal a native value into a host cell under its matching host
    /// constructor.
    pub fn into_datum(self) -> (r: HostCell)
        ensures
            r@ == spec_from_value(self@),
    {
        let ty = self.type_of();
        HostCell { ty, datum: Option::Some(self) }
    }
}

/// Round trip: every value kind with a defined host type marshals out to a
/// host cell and back to the very same value.
pub proof fn lemma_round_trip(v: DatumView)
    ensures
        spec_to_value(spec_from_value(v)) == Option::Some(v),
{
}

/// Null propagation: a NULL host cell marshals to absence for every declared
/// host type. For non-array kinds that is the NULL rule itself; for array
/// kinds the NULL cell takes the non-null conversion path, finds no payload,
/// and yields absence all the same.
pub proof fn lemma_null_propagation(ty: HostType)
    ensures
        spec_to_value(CellView { ty, datum: Option::None }) is None,
{
}

} // verus!

verus! {

/// Clone a vector of possibly absent copyable elements.
fn clone_copy_opt_vec<T: Copy>(v: &Vec<Option<T>>) -> (r: Vec<Option<T>>)
    ensures
        r@ == v@,
{
    let mut r: Vec<Option<T>> = Vec::new();
    let mut i: usize = 0;
    while i < v.len()
        invariant
            i <= v.len(),
            r@ =~= v@.subrange(0, i as int),
        decreases v.len() - i,
    {
        r.push(v[i]);
        i = i + 1;
    }
    proof {
        assert(r@ =~= v@);
    }
    r
}

/// Clone a vector of possibly absent strings.
fn clone_opt_string_vec(v: &Vec<Option<String>>) -> (r: Vec<Option<String>>)
    ensures
        r@ =~= v@,
{
    let mut r: Vec<Option<String>> = Vec::new();
    let mut i: usize = 0;
    while i < v.len()
        invariant
            i <= v.len(),
            r@ =~= v@.subrange(0, i as int),
        decreases v.len() - i,
    {
        match &v[i] {
            Option::Some(s) => r.push(Option::Some(s.clone())),
            Option::None => r.push(Option::None),
        }
        i = i + 1;
    }
    proof {
        assert(r@ =~= v@);
    }
    r
}

/// Clone a vector of possibly absent single-precision boundary floats.
fn clone_opt_float4_vec(v: &Vec<Option<Float4>>) -> (r: Vec<Option<Float4>>)
    ensures
        r@ =~= v@,
{
    let mut r: Vec<Option<Float4>> = Vec::new();
    let mut i: usize = 0;
    while i < v.len()
        invariant
            i <= v.len(),
            r@ =~= v@.subrange(0, i as int),
        decreases v.len() - i,
    {
        match &v[i] {
            Option::Some(f) => r.push(Option::Some(f.clone())),
            Option::None => r.push(Option::None),
        }
        i = i + 1;
    }
    proof {
        assert(r@ =~= v@);
    }
    r
}

/// Clone a vector of possibly absent double-precision boundary floats.
fn clone_opt_float8_vec(v: &Vec<Option<Float8>>) -> (r: Vec<Option<Float8>>)
    ensures
        r@ =~= v@,
{
    let mut r: Vec<Option<Float8>> = Vec::new();
    let mut i: usize = 0;
    while i < v.len()
        invariant
            i <= v.len(),
            r@ =~= v@.subrange(0, i as int),
        decreases v.len() - i,
    {
        match &v[i] {
            Option::Some(f) => r.push(Option::Some(f.clone())),
            Option::None => r.push(Option::None),
        }
        i = i + 1;
    }
    proof {
        assert(r@ =~= v@);
    }
    r
}

impl Clone for AnyDatum {
    /// Values have deep-copy semantics: a clone carries the same
    /// mathematical value, variable-length payloads included.
    fn clone(&self) -> (res: Self)
        ensures
            res@ == self@,
    {
        match self {
            AnyDatum::Bool(v) => AnyDatum::Bool(*v),
            AnyDatum::I8(v) => AnyDatum::I8(*v),
            AnyDatum::I16(v) => AnyDatum::I16(*v),
            AnyDatum::F32(v) => AnyDatum::F32(v.clone()),
            AnyDatum::I32(v) => AnyDatum::I32(*v),
            AnyDatum::F64(v) => AnyDatum::F64(v.clone()),
            AnyDatum::I64(v) => AnyDatum::I64(*v),
            AnyDatum::Numeric(v) => AnyDatum::Numeric(v.clone()),
            AnyDatum::String(v) => AnyDatum::String(v.clone()),
            AnyDatum::Date(v) => AnyDatum::Date(*v),
            AnyDatum::Time(v) => AnyDatum::Time(*v),
            AnyDatum::Timestamp(v) => AnyDatum::Timestamp(*v),
            AnyDatum::Timestamptz(v) => AnyDatum::Timestamptz(*v),
            AnyDatum::Interval(v) => AnyDatum::Interval(*v),
            AnyDatum::Json(v) => AnyDatum::Json(v.clone()),
            AnyDatum::Uuid(v) => AnyDatum::Uuid(*v),
            AnyDatum::BoolArray(v) => AnyDatum::BoolArray(clone_copy_opt_vec(v)),
            AnyDatum::I16Array(v) => AnyDatum::I16Array(clone_copy_opt_vec(v)),
            AnyDatum::I32Array(v) => AnyDatum::I32Array(clone_copy_opt_vec(v)),
            AnyDatum::I64Array(v) => AnyDatum::I64Array(clone_copy_opt_vec(v)),
            AnyDatum::F32Array(v) => AnyDatum::F32Array(clone_opt_float4_vec(v)),
            AnyDatum::F64Array(v) => AnyDatum::F64Array(clone_opt_float8_vec(v)),
            AnyDatum::StringArray(v) => AnyDatum::StringArray(clone_opt_string_vec(v)),
        }
    }
}

impl Clone for HostCell {
    fn clone(&self) -> (res: Self)
        ensures
            res@ == self@,
    {
        HostCell {
            ty: self.ty,
            datum: match &self.datum {
                Option::Some(d) => Option::Some(d.clone()),
                Option::None => Option::None,
            },
        }
    }
}

} // verus!

verus! {

use crate::text::{
    spec_bool_text, spec_date_text, spec_decimal_int, spec_interval_text, spec_quoted,
    spec_time_text, spec_timestamp_text, spec_timestamptz_text, spec_uuid_text, bool_text,
    date_text, decimal_i64, interval_text, quoted, time_text, timestamp_text, timestamptz_text,
    uuid_text,
};

/// The rendering of one array element: its text, or the null marker.
pub open spec fn spec_elem_text(e: Option<Seq<char>>) -> Seq<char> {
    match e {
        Option::Some(s) => s,
        Option::None => "null"@,
    }
}

/// Rendered array elements joined with commas.
pub open spec fn spec_join_elems(elems: Seq<Option<Seq<char>>>) -> Seq<char>
    decreases elems.len(),
{
    if elems.len() == 0 {
        Seq::empty()
    } else if elems.len() == 1 {
        spec_elem_text(elems[0])
    } else {
        spec_join_elems(elems.drop_last()) + seq![','] + spec_elem_text(elems.last())
    }
}

/// The rendering of an array: its rendered elements, comma-separated,
/// between brackets, with absent elements as the null marker.
pub open spec fn spec_write_array(elems: Seq<Option<Seq<char>>>) -> Seq<char> {
    seq!['['] + spec_join_elems(elems) + seq![']']
}

/// Render already rendered array elements bracket-and-comma style, absence
/// as the null marker.
pub fn write_array(array: &Vec<Option<String>>) -> (r: String)
    ensures
        r@ == spec_write_array(array.deep_view()),
{
    let mut body = String::new();
    let n = array.len();
    let mut i: usize = 0;
    while i < n
        invariant
            i <= n,
            n == array@.len(),
            body@ == spec_join_elems(array.deep_view().subrange(0, i as int)),
        decreases n - i,
    {
        if i > 0 {
            proof {
                reveal_strlit(",");
                assert(","@ =~= seq![',']);
            }
            body.append(",");
        }
        match &array[i] {
            Option::Some(s) => body.append(s.as_str()),
            Option::None => body.append("null"),
        }
        proof {
            let all = array.deep_view();
            let prefix = all.subrange(0, i + 1 as int);
            assert(prefix.drop_last() =~= all.subrange(0, i as int));
            assert(prefix.last() == all[i as int]);
            assert(body@ == spec_join_elems(prefix));
        }
        i = i + 1;
    }
    let mut r = String::new();
    proof {
        reveal_strlit("[");
        reveal_strlit("]");
        assert("["@ =~= seq!['[']);
        assert("]"@ =~= seq![']']);
        assert(array.deep_view().subrange(0, n as int) =~= array.deep_view());
    }
    r.append("[");
    r.append(body.as_str());
    r.append("]");
    proof {
        assert(r@ =~= spec_write_array(array.deep_view()));
    }
    r
}

/// The renderings of boolean array elements.
pub open spec fn spec_bool_elems(s: Seq<Option<bool>>) -> Seq<Option<Seq<char>>> {
    Seq::new(
        s.len(),
        |i: int|
            match s[i] {
                Option::Some(b) => Option::Some(spec_bool_text(b)),
                Option::None => Option::None,
            },
    )
}

fn render_bool_elems(v: &Vec<Option<bool>>) -> (r: Vec<Option<String>>)
    ensures
        r.deep_view() == spec_bool_elems(v@),
{
    let mut r: Vec<Option<String>> = Vec::new();
    let mut i: usize = 0;
    while i < v.len()
        invariant
            i <= v.len(),
            r@.len() == i,
            forall|j: int| 0 <= j < i ==> #[trigger] r@[j].deep_view() == spec_bool_elems(v@)[j],
        decreases v.len() - i,
    {
        match v[i] {
            Option::Some(b) => r.push(Option::Some(bool_text(b))),
            Option::None => r.push(Option::None),
        }
        i = i + 1;
    }
    proof {
        assert(r.deep_view() =~= spec_bool_elems(v@));
    }
    r
}

/// The renderings of 16-bit integer array elements.
pub open spec fn spec_i16_elems(s: Seq<Option<i16>>) -> Seq<Option<Seq<char>>> {
    Seq::new(
        s.len(),
        |i: int|
            match s[i] {
                Option::Some(n) => Option::Some(spec_decimal_int(n as int)),
                Option::None => Option::None,
            },
    )
}

fn render_i16_elems(v: &Vec<Option<i16>>) -> (r: Vec<Option<String>>)
    ensures
        r.deep_view() == spec_i16_elems(v@),
{
    let mut r: Vec<Option<String>> = Vec::new();
    let mut i: usize = 0;
    while i < v.len()
        invariant
            i <= v.len(),
            r@.len() == i,
            forall|j: int| 0 <= j < i ==> #[trigger] r@[j].deep_view() == spec_i16_elems(v@)[j],
        decreases v.len() - i,
    {
        match v[i] {
            Option::Some(n) => r.push(Option::Some(decimal_i64(n as i64))),
            Option::None => r.push(Option::None),
        }
        i = i + 1;
    }
    proof {
        assert(r.deep_view() =~= spec_i16_elems(v@));
    }
    r
}

/// The renderings of 32-bit integer array elements.
pub open spec fn spec_i32_elems(s: Seq<Option<i32>>) -> Seq<Option<Seq<char>>> {
    Seq::new(
        s.len(),
        |i: int|
            match s[i] {
                Option::Some(n) => Option::Some(spec_decimal_int(n as int)),
                Option::None => Option::None,
            },
    )
}

fn render_i32_elems(v: &Vec<Option<i32>>) -> (r: Vec<Option<String>>)
    ensures
        r.deep_view() == spec_i32_elems(v@),
{
    let mut r: Vec<Option<String>> = Vec::new();
    let mut i: usize = 0;
    while i < v.len()
        invariant
            i <= v.len(),
            r@.len() == i,
            forall|j: int| 0 <= j < i ==> #[trigger] r@[j].deep_view() == spec_i32_elems(v@)[j],
        decreases v.len() - i,
    {
        match v[i] {
            Option::Some(n) => r.push(Option::Some(decimal_i64(n as i64))),
            Option::None => r.push(Option::None),
        }
        i = i + 1;
    }
    proof {
        assert(r.deep_view() =~= spec_i32_elems(v@));
    }
    r
}

/// The renderings of 64-bit integer array elements.
pub open spec fn spec_i64_elems(s: Seq<Option<i64>>) -> Seq<Option<Seq<char>>> {
    Seq::new(
        s.len(),
        |i: int|
            match s[i] {
                Option::Some(n) => Option::Some(spec_decimal_int(n as int)),
                Option::None => Option::None,
            },
    )
}

fn render_i64_elems(v: &Vec<Option<i64>>) -> (r: Vec<Option<String>>)
    ensures
        r.deep_view() == spec_i64_elems(v@),
{
    let mut r: Vec<Option<String>> = Vec::new();
    let mut i: usize = 0;
    while i < v.len()
        invariant
            i <= v.len(),
            r@.len() == i,
            forall|j: int| 0 <= j < i ==> #[trigger] r@[j].deep_view() == spec_i64_elems(v@)[j],
        decreases v.len() - i,
    {
        match v[i] {
            Option::Some(n) => r.push(Option::Some(decimal_i64(n))),
            Option::None => r.push(Option::None),
        }
        i = i + 1;
    }
    proof {
        assert(r.deep_view() =~= spec_i64_elems(v@));
    }
    r
}

/// The renderings of single-precision float array elements: the boundary's
/// own decimal text of each.
pub open spec fn spec_float4_elems(s: Seq<Option<Float4View>>) -> Seq<Option<Seq<char>>> {
    Seq::new(
        s.len(),
        |i: int|
            match s[i] {
                Option::Some(f) => Option::Some(f.text),
                Option::None => Option::None,
            },
    )
}

fn render_float4_elems(v: &Vec<Option<Float4>>) -> (r: Vec<Option<String>>)
    ensures
        r.deep_view() == spec_float4_elems(v.deep_view()),
{
    let mut r: Vec<Option<String>> = Vec::new();
    let mut i: usize = 0;
    while i < v.len()
        invariant
            i <= v.len(),
            r@.len() == i,
            forall|j: int|
                0 <= j < i ==> #[trigger] r@[j].deep_view() == spec_float4_elems(v.deep_view())[j],
        decreases v.len() - i,
    {
        match &v[i] {
            Option::Some(f) => r.push(Option::Some(f.text.clone())),
            Option::None => r.push(Option::None),
        }
        i = i + 1;
    }
    proof {
        assert(r.deep_view() =~= spec_float4_elems(v.deep_view()));
    }
    r
}

/// The renderings of double-precision float array elements.
pub open spec fn spec_float8_elems(s: Seq<Option<Float8View>>) -> Seq<Option<Seq<char>>> {
    Seq::new(
        s.len(),
        |i: int|
            match s[i] {
                Option::Some(f) => Option::Some(f.text),
                Option::None => Option::None,
            },
    )
}

fn render_float8_elems(v: &Vec<Option<Float8>>) -> (r: Vec<Option<String>>)
    ensures
        r.deep_view() == spec_float8_elems(v.deep_view()),
{
    let mut r: Vec<Option<String>> = Vec::new();
    let mut i: usize = 0;
    while i < v.len()
        invariant
            i <= v.len(),
            r@.len() == i,
            forall|j: int|
                0 <= j < i ==> #[trigger] r@[j].deep_view() == spec_float8_elems(v.deep_view())[j],
        decreases v.len() - i,
    {
        match &v[i] {
            Option::Some(f) => r.push(Option::Some(f.text.clone())),
            Option::None => r.push(Option::None),
        }
        i = i + 1;
    }
    proof {
        assert(r.deep_view() =~= spec_float8_elems(v.deep_view()));
    }
    r
}

fn render_string_elems(v: &Vec<Option<String>>) -> (r: Vec<Option<String>>)
    ensures
        r.deep_view() == v.deep_view(),
{
    let mut r: Vec<Option<String>> = Vec::new();
    let mut i: usize = 0;
    while i < v.len()
        invariant
            i <= v.len(),
            r@.len() == i,
            forall|j: int| 0 <= j < i ==> #[trigger] r@[j].deep_view() == v.deep_view()[j],
        decreases v.len() - i,
    {
        match &v[i] {
            Option::Some(s) => r.push(Option::Some(s.clone())),
            Option::None => r.push(Option::None),
        }
        i = i + 1;
    }
    proof {
        assert(r.deep_view() =~= v.deep_view());
    }
    r
}

/// The rendering of a value as a literal suitable for embedding in
/// generated query text: strings, documents, temporal values and unique
/// identifiers quoted; truth values, numbers and intervals bare; arrays
/// bracket-and-comma with bare elements and the null marker for absent
/// ones. Float values carry the boundary's own decimal text.
pub open spec fn spec_display(v: DatumView) -> Seq<char> {
    match v {
        DatumView::Bool(b) => spec_bool_text(b),
        DatumView::I8(n) => spec_decimal_int(n as int),
        DatumView::I16(n) => spec_decimal_int(n as int),
        DatumView::F32(f) => f.text,
        DatumView::I32(n) => spec_decimal_int(n as int),
        DatumView::F64(f) => f.text,
        DatumView::I64(n) => spec_decimal_int(n as int),
        DatumView::Numeric(s) => s,
        DatumView::String(s) => spec_quoted(s),
        DatumView::Date(d) => spec_quoted(spec_date_text(d as int)),
        DatumView::Time(t) => spec_quoted(spec_time_text(t as int)),
        DatumView::Timestamp(t) => spec_quoted(spec_timestamp_text(t as int)),
        DatumView::Timestamptz(t) => spec_quoted(spec_timestamptz_text(t as int)),
        DatumView::Interval(iv) => spec_interval_text(
            iv.months as int,
            iv.days as int,
            iv.micros as int,
        ),
        DatumView::Json(s) => spec_quoted(s),
        DatumView::Uuid(u) => spec_quoted(spec_uuid_text(u)),
        DatumView::BoolArray(a) => spec_write_array(spec_bool_elems(a)),
        DatumView::I16Array(a) => spec_write_array(spec_i16_elems(a)),
        DatumView::I32Array(a) => spec_write_array(spec_i32_elems(a)),
        DatumView::I64Array(a) => spec_write_array(spec_i64_elems(a)),
        DatumView::F32Array(a) => spec_write_array(spec_float4_elems(a)),
        DatumView::F64Array(a) => spec_write_array(spec_float8_elems(a)),
        DatumView::StringArray(a) => spec_write_array(a),
    }
}

impl AnyDatum {
    /// Render the value as a literal for textual embedding; see
    /// [`spec_display`] for the exact form of every kind.
    pub fn display(&self) -> (r: String)
        ensures
            r@ == spec_display(self@),
    {
        match self {
            AnyDatum::Bool(b) => bool_text(*b),
            AnyDatum::I8(n) => decimal_i64(*n as i64),
            AnyDatum::I16(n) => decimal_i64(*n as i64),
            AnyDatum::F32(f) => f.text.clone(),
            AnyDatum::I32(n) => decimal_i64(*n as i64),
            AnyDatum::F64(f) => f.text.clone(),
            AnyDatum::I64(n) => decimal_i64(*n),
            AnyDatum::Numeric(s) => s.clone(),
            AnyDatum::String(s) => quoted(s.as_str()),
            AnyDatum::Date(d) => quoted(date_text(*d).as_str()),
            AnyDatum::Time(t) => quoted(time_text(*t).as_str()),
            AnyDatum::Timestamp(t) => quoted(timestamp_text(*t).as_str()),
            AnyDatum::Timestamptz(t) => quoted(timestamptz_text(*t).as_str()),
            AnyDatum::Interval(iv) => interval_text(iv.months, iv.days, iv.micros),
            AnyDatum::Json(s) => quoted(s.as_str()),
            AnyDatum::Uuid(u) => quoted(uuid_text(*u).as_str()),
            AnyDatum::BoolArray(a) => {
                let r = write_array(&render_bool_elems(a));
                proof {
                    assert(a.deep_view() =~= a@);
                }
                r
            },
            AnyDatum::I16Array(a) => {
                let r = write_array(&render_i16_elems(a));
                proof {
                    assert(a.deep_view() =~= a@);
                }
                r
            },
            AnyDatum::I32Array(a) => {
                let r = write_array(&render_i32_elems(a));
                proof {
                    assert(a.deep_view() =~= a@);
                }
                r
            },
            AnyDatum::I64Array(a) => {
                let r = write_array(&render_i64_elems(a));
                proof {
                    assert(a.deep_view() =~= a@);
                }
                r
            },
            AnyDatum::F32Array(a) => write_array(&render_float4_elems(a)),
            AnyDatum::F64Array(a) => write_array(&render_float8_elems(a)),
            AnyDatum::StringArray(a) => write_array(&render_string_elems(a)),
        }
    }
}

} // verus!
