use crate::anydatum::{AnyDatum, DatumView, HostType};
use crate::err::{PlprqlError, PlprqlResult};
use vstd::prelude::*;

verus! {

/// How an invocation hands results back to the host: a full table of rows,
/// a single column of values, or one scalar value.
#[derive(Clone, Copy, Debug, PartialEq, Eq, Structural)]
pub enum Return {
    Table,
    SetOf,
    Scalar,
}

/// The declared mode of one argument of a callable, as the catalog records
/// it.
#[derive(Clone, Copy, Debug, PartialEq, Eq, Structural)]
pub enum ArgMode {
    In,
    Out,
    InOut,
    Variadic,
    Table,
}

/// One catalog row for a callable: its identity, declared input argument
/// types, declared argument modes, source body text, and whether it returns
/// a set.
#[derive(Debug)]
pub struct PgProc {
    pub oid: u32,
    pub proargtypes: Vec<HostType>,
    pub proargmodes: Vec<ArgMode>,
    pub prosrc: String,
    pub proretset: bool,
}

pub struct PgProcView {
    pub oid: u32,
    pub proargtypes: Seq<HostType>,
    pub proargmodes: Seq<ArgMode>,
    pub prosrc: Seq<char>,
    pub proretset: bool,
}

impl View for PgProc {
    type V = PgProcView;

    open spec fn view(&self) -> PgProcView {
        PgProcView {
            oid: self.oid,
            proargtypes: self.proargtypes@,
            proargmodes: self.proargmodes@,
            prosrc: self.prosrc@,
            proretset: self.proretset,
        }
    }
}

impl DeepView for PgProc {
    type V = PgProcView;

    open spec fn deep_view(&self) -> PgProcView {
        self@
    }
}

/// Clone a vector of copyable elements.
fn clone_copy_vec<T: Copy>(v: &Vec<T>) -> (r: Vec<T>)
    ensures
        r@ == v@,
{
    let mut r: Vec<T> = Vec::new();
    let mut i: usize = 0;
    while i < v.len()
        invariant
            i <= v.len(),
            r@ =~= v@.subrange(0, i as int),
        decreases v.len() - i,
    {
        r.push(v[i]);
        i = i + 1;
    }
    proof {
        assert(r@ =~= v@);
    }
    r
}

impl Clone for PgProc {
    fn clone(&self) -> (res: Self)
        ensures
            res@ == self@,
    {
        PgProc {
            oid: self.oid,
            proargtypes: clone_copy_vec(&self.proargtypes),
            proargmodes: clone_copy_vec(&self.proargmodes),
            prosrc: self.prosrc.clone(),
            proretset: self.proretset,
        }
    }
}

/// The function-manager information of an invocation: the identity of the
/// callable being invoked.
#[derive(Clone, Copy, Debug, PartialEq, Eq, Structural)]
pub struct FmgrInfo {
    pub fn_oid: u32,
}

/// The invocation handle the host passes on every call: the caller-identity
/// information, if any, and the bound argument cells in declaration order —
/// absence is a NULL-bound argument.
#[derive(Debug)]
pub struct FunctionCallInfo {
    pub flinfo: Option<FmgrInfo>,
    pub args: Vec<Option<AnyDatum>>,
}

pub struct CallInfoView {
    pub flinfo: Option<FmgrInfo>,
    pub args: Seq<Option<DatumView>>,
}

impl View for FunctionCallInfo {
    type V = CallInfoView;

    open spec fn view(&self) -> CallInfoView {
        CallInfoView { flinfo: self.flinfo, args: self.args.deep_view() }
    }
}

/// The catalog of known callables, as the host's metadata store exposes it.
#[derive(Debug)]
pub struct PgCatalog {
    pub procs: Vec<PgProc>,
}

impl View for PgCatalog {
    type V = Seq<PgProcView>;

    open spec fn view(&self) -> Seq<PgProcView> {
        self.procs.deep_view()
    }
}

/// The first catalog row whose identity matches, if any.
pub open spec fn spec_lookup(procs: Seq<PgProcView>, oid: u32) -> Option<PgProcView>
    decreases procs.len(),
{
    if procs.len() == 0 {
        Option::None
    } else if procs[0].oid == oid {
        Option::Some(procs[0])
    } else {
        spec_lookup(procs.drop_first(), oid)
    }
}

proof fn lemma_lookup_after_miss(procs: Seq<PgProcView>, oid: u32)
    requires
        procs.len() > 0,
        procs[0].oid != oid,
    ensures
        spec_lookup(procs, oid) == spec_lookup(procs.drop_first(), oid),
{
}

/// A resolved function descriptor: the catalog row of the callable and the
/// bound argument values of this invocation. Created once per invocation,
/// immutable, discarded at its end.
#[derive(Debug)]
pub struct Function {
    pub pg_proc: PgProc,
    pub args: Vec<Option<AnyDatum>>,
}

pub struct FunctionView {
    pub pg_proc: PgProcView,
    pub args: Seq<Option<DatumView>>,
}

impl View for Function {
    type V = FunctionView;

    open spec fn view(&self) -> FunctionView {
        FunctionView { pg_proc: self.pg_proc@, args: self.args.deep_view() }
    }
}

/// Whether a mode sequence declares table-typed output arguments.
pub open spec fn spec_has_table_mode(modes: Seq<ArgMode>) -> bool {
    exists|i: int| 0 <= i < modes.len() && modes[i] is Table
}

/// The return shape classification: returns-set with table-typed arguments
/// is a Table, returns-set without them a SetOf, and anything else a
/// Scalar.
pub open spec fn spec_return_mode(p: PgProcView) -> Return {
    if p.proretset {
        if spec_has_table_mode(p.proargmodes) {
            Return::Table
        } else {
            Return::SetOf
        }
    } else {
        Return::Scalar
    }
}

impl Function {
    /// Resolve an invocation handle into a function descriptor. Fails when
    /// the handle is absent altogether, when it carries no caller-identity
    /// information, and when the identity matches no known callable — and
    /// in no other case. A pure lookup with no side effect.
    #[verifier::loop_isolation(false)]
    pub fn from_call_info(call_info: Option<&FunctionCallInfo>, catalog: &PgCatalog) -> (r:
        PlprqlResult<Function>)
        ensures
            r is Ok <==> (call_info is Some && call_info->0.flinfo is Some && spec_lookup(
                catalog@,
                call_info->0.flinfo->0.fn_oid,
            ) is Some),
            r is Ok ==> {
                &&& r->Ok_0.pg_proc@ == spec_lookup(
                    catalog@,
                    call_info->0.flinfo->0.fn_oid,
                )->0
                &&& r->Ok_0.args.deep_view() == call_info->0@.args
            },
            r is Err ==> {
                &&& (r->Err_0 is NullFunctionCallInfo <==> call_info is None)
                &&& (r->Err_0 is NullFmgrInfo <==> call_info is Some && call_info->0.flinfo
                    is None)
                &&& (r->Err_0 is UndefinedFunction <==> call_info is Some
                    && call_info->0.flinfo is Some)
            },
    {
        let ci = match call_info {
            Option::Some(ci) => ci,
            Option::None => {
                return Result::Err(PlprqlError::NullFunctionCallInfo);
            },
        };
        let fn_oid = match &ci.flinfo {
            Option::Some(flinfo) => flinfo.fn_oid,
            Option::None => {
                return Result::Err(PlprqlError::NullFmgrInfo);
            },
        };
        let n = catalog.procs.len();
        let mut i: usize = 0;
        proof {
            assert(catalog@.skip(0) =~= catalog@);
        }
        while i < n
            invariant
                i <= n,
                n == catalog.procs@.len(),
                spec_lookup(catalog@, fn_oid) == spec_lookup(
                    catalog@.skip(i as int),
                    fn_oid,
                ),
            decreases n - i,
        {
            if catalog.procs[i].oid == fn_oid {
                proof {
                    assert(catalog@.skip(i as int)[0] == catalog@[i as int]);
                    assert(spec_lookup(catalog@.skip(i as int), fn_oid) == Option::Some(
                        catalog@[i as int],
                    ));
                }
                return Result::Ok(
                    Function {
                        pg_proc: catalog.procs[i].clone(),
                        args: crate::spi::clone_opt_datum_vec(&ci.args),
                    },
                );
            }
            proof {
                assert(catalog@.skip(i as int)[0] == catalog@[i as int]);
                assert(catalog@.skip(i as int).drop_first() =~= catalog@.skip(i as int + 1));
                lemma_lookup_after_miss(catalog@.skip(i as int), fn_oid);
            }
            i = i + 1;
        }
        proof {
            assert(catalog@.skip(n as int) =~= Seq::<PgProcView>::empty());
        }
        Result::Err(PlprqlError::UndefinedFunction)
    }

    /// The bound arguments of the invocation: the declared type of each
    /// input argument paired with its bound value, absence standing for a
    /// NULL-bound argument cell. A callable with no arguments yields no
    /// list at all.
    pub fn arguments(&self) -> (r: PlprqlResult<Option<Vec<(HostType, Option<AnyDatum>)>>>)
        requires
            self.args@.len() >= self.pg_proc.proargtypes@.len(),
        ensures
            r is Ok,
            self.pg_proc.proargtypes@.len() == 0 ==> r->Ok_0 is None,
            self.pg_proc.proargtypes@.len() > 0 ==> {
                &&& r->Ok_0 is Some
                &&& r->Ok_0->0@.len() == self.pg_proc.proargtypes@.len()
                &&& forall|i: int|
                    0 <= i < self.pg_proc.proargtypes@.len() ==> (#[trigger] r->Ok_0->0@[i]).0
                        == self.pg_proc.proargtypes@[i] && r->Ok_0->0@[i].1.deep_view()
                        == self@.args[i]
            },
    {
        let n = self.pg_proc.proargtypes.len();
        let mut pairs: Vec<(HostType, Option<AnyDatum>)> = Vec::new();
        let mut i: usize = 0;
        while i < n
            invariant
                i <= n,
                n == self.pg_proc.proargtypes@.len(),
                self.args@.len() >= n,
                pairs@.len() == i,
                forall|j: int|
                    0 <= j < i ==> (#[trigger] pairs@[j]).0 == self.pg_proc.proargtypes@[j]
                        && pairs@[j].1.deep_view() == self@.args[j],
            decreases n - i,
        {
            let value = match &self.args[i] {
                Option::Some(d) => Option::Some(d.clone()),
                Option::None => Option::None,
            };
            pairs.push((self.pg_proc.proargtypes[i], value));
            i = i + 1;
        }
        if pairs.is_empty() {
            Result::Ok(Option::None)
        } else {
            Result::Ok(Option::Some(pairs))
        }
    }

    /// The source body text of the callable.
    pub fn body(&self) -> (r: String)
        ensures
            r@ == self.pg_proc.prosrc@,
    {
        self.pg_proc.prosrc.clone()
    }

    /// Classify the return shape from the two independently declared
    /// catalog facts: does the callable return a set, and does it declare
    /// table-typed output arguments.
    #[verifier::loop_isolation(false)]
    pub fn return_mode(&self) -> (r: Return)
        ensures
            r == spec_return_mode(self.pg_proc@),
    {
        if !self.pg_proc.proretset {
            return Return::Scalar;
        }
        let n = self.pg_proc.proargmodes.len();
        let mut i: usize = 0;
        while i < n
            invariant
                i <= n,
                n == self.pg_proc.proargmodes@.len(),
                forall|j: int| 0 <= j < i ==> !(#[trigger] self.pg_proc.proargmodes@[j] is Table),
            decreases n - i,
        {
            if matches!(self.pg_proc.proargmodes[i], ArgMode::Table) {
                proof {
                    assert(self.pg_proc.proargmodes@[i as int] is Table);
                    assert(spec_has_table_mode(self.pg_proc.proargmodes@));
                }
                return Return::Table;
            }
            i = i + 1;
        }
        Return::SetOf
    }
}

} // verus!
