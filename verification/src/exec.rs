//! Running Wasm modules under deterministic limits with `wasmtime`.
//!
//! Admission (size budget and capability policy), the store configuration, the checks on an
//! export's signature against the caller's arguments, and the meaning given to a failed call
//! are verified here. Compilation, instantiation and the call itself are `wasmtime`'s.
//! A host wall-clock watchdog needs a thread, so it is left to the embedding program: it
//! raises the engine's epoch, and a call interrupted that way is reported here as a timeout.
use vstd::prelude::*;
use wasmtime::Engine;
use crate::runtime::{
    call_slot, compile_wasm, engine_clone, export_signature, exports_function, instantiate_into, metered_engine,
    new_store, raw_engine, slot_signature, store_epoch_deadline_trap, store_set_epoch_deadline, store_set_fuel,
    CompiledWasm, MeteredEngine, RawCall, StoreCall, WasmStore,
};
use crate::policy::{check_wasm_policy, policy_message, scan_verdict, wasm_payload_scan, PolicyError, WasmPolicy};
use crate::text::{decimal, push_decimal, push_signed_decimal, signed_decimal};

verus! {

/// Hard limit on the Wasm module bytes accepted for compilation.
pub const MAX_WASM_BYTES: usize = 16777216;

/// Default wall-clock budget for compiling a module (milliseconds).
pub const DEFAULT_COMPILE_WALL_MS: u64 = 30000;

/// Fuel a call gets when the caller asks for the defaults.
pub const DEFAULT_FUEL: u64 = 50000;

/// Epoch deadline, in ticks beyond the current epoch, for calls without a wall-clock cap:
/// far enough that it is never reached (epochs move only when the host raises them).
pub const EPOCH_DEADLINE_FAR_TICKS: u64 = 4611686018427387903;

/// Wall-clock budget for compiling a module.
#[derive(Clone, Copy, Debug, PartialEq, Eq)]
pub struct CompileLimits {
    /// `None`: no host wall-clock cap (for trusted first-party artifacts only).
    pub max_wall_ms: Option<u64>,
}

impl Default for CompileLimits {
    fn default() -> (l: Self)
        ensures
            l.max_wall_ms == Some(DEFAULT_COMPILE_WALL_MS),
    {
        CompileLimits { max_wall_ms: Some(DEFAULT_COMPILE_WALL_MS) }
    }
}

impl CompileLimits {
    /// No compile wall-clock cap.
    pub fn unbounded() -> (l: Self)
        ensures
            l.max_wall_ms is None,
    {
        CompileLimits { max_wall_ms: None }
    }
}

/// Budget of one invocation.
#[derive(Clone, Copy, Debug, PartialEq, Eq)]
pub struct Limits {
    pub fuel: u64,
    /// Wall-clock cap: the call is interrupted when the engine's epoch is raised (by the
    /// embedding program's watchdog) after this many milliseconds.
    pub max_wall_ms: Option<u64>,
}

impl Default for Limits {
    fn default() -> (l: Self)
        ensures
            l.fuel == DEFAULT_FUEL,
            l.max_wall_ms is None,
    {
        Limits { fuel: DEFAULT_FUEL, max_wall_ms: None }
    }
}

/// A Wasm scalar value (floating-point values by their bit patterns).
#[derive(Clone, Copy, Debug, PartialEq, Eq)]
pub enum WasmScalar {
    I32(i32),
    I64(i64),
    F32(u32),
    F64(u64),
}

/// A Wasm value type as `wasmtime` reports it; anything but the four scalar types by its
/// printed form.
#[derive(Clone, Debug, PartialEq, Eq)]
pub enum ValKind {
    I32,
    I64,
    F32,
    F64,
    Other(String),
}

/// How a failed `wasmtime` call ended.
#[derive(Clone, Debug, PartialEq, Eq)]
pub struct CallFailure {
    /// The call trapped because the engine's epoch passed the store's deadline.
    pub interrupted: bool,
    /// The error as `wasmtime` prints it, with its chain of causes.
    pub detail: String,
}

/// Why compiling or running a module failed.
#[derive(Clone, Debug, PartialEq, Eq)]
pub enum RunError {
    TooLarge { len: usize, max: usize },
    Policy(PolicyError),
    Compile(String),
    Instantiate(String),
    MissingExport(String),
    Fuel(String),
    Arity { expected: usize, got: usize },
    ResultCount(usize),
    ParamType { index: usize, expected: ValKind, passed: ValKind },
    UnsupportedResult(ValKind),
    WallClockTimeout(u64),
    Trapped(String),
    UnsupportedValue(String),
    ExpectedI32(WasmScalar),
    ExpectedI32From { export: String, got: WasmScalar },
}

/// The zero value of a result type, put in the result slot before a call (an `i32` zero for a
/// type other than the four scalars, which the signature check never lets through).
pub open spec fn zero_scalar(k: ValKind) -> WasmScalar {
    match k {
        ValKind::I64 => WasmScalar::I64(0),
        ValKind::F32 => WasmScalar::F32(0),
        ValKind::F64 => WasmScalar::F64(0),
        _ => WasmScalar::I32(0),
    }
}

/// The zero value of a result type (see [`zero_scalar`]).
fn result_slot(k: &ValKind) -> (s: WasmScalar)
    ensures
        s == zero_scalar(*k),
{
    match k {
        ValKind::I64 => WasmScalar::I64(0),
        ValKind::F32 => WasmScalar::F32(0),
        ValKind::F64 => WasmScalar::F64(0),
        _ => WasmScalar::I32(0),
    }
}

/// The value type of a scalar.
pub open spec fn scalar_kind(s: WasmScalar) -> ValKind {
    match s {
        WasmScalar::I32(_) => ValKind::I32,
        WasmScalar::I64(_) => ValKind::I64,
        WasmScalar::F32(_) => ValKind::F32,
        WasmScalar::F64(_) => ValKind::F64,
    }
}

/// The value type of a scalar.
pub fn scalar_val_kind(s: &WasmScalar) -> (k: ValKind)
    ensures
        k == scalar_kind(*s),
{
    match s {
        WasmScalar::I32(_) => ValKind::I32,
        WasmScalar::I64(_) => ValKind::I64,
        WasmScalar::F32(_) => ValKind::F32,
        WasmScalar::F64(_) => ValKind::F64,
    }
}

/// Whether a declared value type is the type of the scalar.
fn declares(k: &ValKind, s: &WasmScalar) -> (r: bool)
    ensures
        r == (*k == scalar_kind(*s)),
{
    match (k, s) {
        (ValKind::I32, WasmScalar::I32(_)) => true,
        (ValKind::I64, WasmScalar::I64(_)) => true,
        (ValKind::F32, WasmScalar::F32(_)) => true,
        (ValKind::F64, WasmScalar::F64(_)) => true,
        _ => false,
    }
}

fn copy_kind(k: &ValKind) -> (r: ValKind)
    ensures
        r == *k,
{
    match k {
        ValKind::I32 => ValKind::I32,
        ValKind::I64 => ValKind::I64,
        ValKind::F32 => ValKind::F32,
        ValKind::F64 => ValKind::F64,
        ValKind::Other(s) => ValKind::Other(s.clone()),
    }
}

/// The first parameter at or after `from` whose declared type differs from its argument's.
pub open spec fn first_param_mismatch(params: Seq<ValKind>, args: Seq<WasmScalar>, from: int) -> Option<int>
    decreases params.len() - from,
{
    if from < 0 || from >= params.len() {
        None
    } else if params[from] != scalar_kind(args[from]) {
        Some(from)
    } else {
        first_param_mismatch(params, args, from + 1)
    }
}

/// The parameter that [`first_param_mismatch`] finds is at or after `from`, within the
/// parameters, and mistyped by its argument.
pub proof fn lemma_first_param_mismatch(params: Seq<ValKind>, args: Seq<WasmScalar>, from: int)
    ensures
        first_param_mismatch(params, args, from) matches Some(i) ==> from <= i < params.len() && params[i]
            != scalar_kind(args[i]),
    decreases params.len() - from,
{
    if 0 <= from < params.len() && params[from] == scalar_kind(args[from]) {
        lemma_first_param_mismatch(params, args, from + 1);
    }
}

/// Whether an export with these parameter and result types can be called with `args`: the
/// result type to expect, or why not (arity, result count, first mistyped parameter,
/// unsupported result type, checked in that order).
pub open spec fn call_shape(params: Seq<ValKind>, results: Seq<ValKind>, args: Seq<WasmScalar>) -> Result<
    ValKind,
    RunError,
> {
    if params.len() != args.len() {
        Err(RunError::Arity { expected: params.len() as usize, got: args.len() as usize })
    } else if results.len() != 1 {
        Err(RunError::ResultCount(results.len() as usize))
    } else {
        match first_param_mismatch(params, args, 0) {
            Some(i) => Err(
                RunError::ParamType { index: i as usize, expected: params[i], passed: scalar_kind(args[i]) },
            ),
            None => if results[0] is Other {
                Err(RunError::UnsupportedResult(results[0]))
            } else {
                Ok(results[0])
            },
        }
    }
}

/// Checks an export's signature against the caller's arguments (see [`call_shape`]).
pub fn check_call_shape(params: &Vec<ValKind>, results: &Vec<ValKind>, args: &[WasmScalar]) -> (r: Result<
    ValKind,
    RunError,
>)
    ensures
        r == call_shape(params@, results@, args@),
        r matches Err(RunError::ParamType { index, expected, passed }) ==> index < args@.len() && expected
            == params@[index as int] && passed == scalar_kind(args@[index as int]) && expected != passed,
{
    proof {
        lemma_first_param_mismatch(params@, args@, 0);
    }
    if params.len() != args.len() {
        return Err(RunError::Arity { expected: params.len(), got: args.len() });
    }
    if results.len() != 1 {
        return Err(RunError::ResultCount(results.len()));
    }
    let n = params.len();
    let mut i: usize = 0;
    while i < n
        invariant
            n == params@.len(),
            n == args@.len(),
            results@.len() == 1,
            i <= n,
            first_param_mismatch(params@, args@, 0) == first_param_mismatch(params@, args@, i as int),
        decreases n - i,
    {
        if !declares(&params[i], &args[i]) {
            assert(first_param_mismatch(params@, args@, i as int) == Some(i as int));
            let expected = copy_kind(&params[i]);
            let passed = scalar_val_kind(&args[i]);
            return Err(RunError::ParamType { index: i, expected, passed });
        }
        i = i + 1;
    }
    assert(first_param_mismatch(params@, args@, n as int) is None);
    match &results[0] {
        ValKind::Other(_) => Err(RunError::UnsupportedResult(copy_kind(&results[0]))),
        _ => Ok(copy_kind(&results[0])),
    }
}

/// The epoch deadline a call gets: one tick when a wall-clock cap is set (the watchdog's one
/// raise interrupts it), otherwise out of reach.
pub open spec fn epoch_deadline(wall_ms: Option<u64>) -> u64 {
    match wall_ms {
        Some(_) => 1,
        None => EPOCH_DEADLINE_FAR_TICKS,
    }
}

/// The meaning of a failed call: an interrupt under a wall-clock cap is a timeout; anything
/// else is a trap.
pub open spec fn call_failure_error(f: CallFailure, wall_ms: Option<u64>) -> RunError {
    match wall_ms {
        Some(ms) => if f.interrupted {
            RunError::WallClockTimeout(ms)
        } else {
            RunError::Trapped(f.detail)
        },
        None => RunError::Trapped(f.detail),
    }
}

/// The error a failed call is reported as (see [`call_failure_error`]).
pub fn map_call_failure(f: CallFailure, wall_ms: Option<u64>) -> (e: RunError)
    ensures
        e == call_failure_error(f, wall_ms),
{
    match wall_ms {
        Some(ms) => if f.interrupted {
            RunError::WallClockTimeout(ms)
        } else {
            RunError::Trapped(f.detail)
        },
        None => RunError::Trapped(f.detail),
    }
}

/// An `i32` result, or the error naming what came back instead.
pub fn expect_i32(got: WasmScalar) -> (r: Result<i32, RunError>)
    ensures
        got matches WasmScalar::I32(v) ==> r == Ok::<i32, RunError>(v),
        !(got is I32) ==> r == Err::<i32, RunError>(RunError::ExpectedI32(got)),
{
    match got {
        WasmScalar::I32(v) => Ok(v),
        other => Err(RunError::ExpectedI32(other)),
    }
}

/// An `i32` result of export `export`, or the error naming what came back instead.
pub fn expect_i32_from(export: &str, got: WasmScalar) -> (r: Result<i32, RunError>)
    ensures
        got matches WasmScalar::I32(v) ==> r == Ok::<i32, RunError>(v),
        !(got is I32) ==> (r matches Err(RunError::ExpectedI32From { export: e, got: g }) && e@ == export@
            && g == got),
{
    match got {
        WasmScalar::I32(v) => Ok(v),
        other => Err(RunError::ExpectedI32From { export: export.to_string(), got: other }),
    }
}

/// Sets the store's fuel and epoch deadline for one call (the fuel is always taken: every store
/// belongs to a metered engine).
fn configure_store_for_invoke(store: &mut WasmStore, fuel: u64, wall_ms: Option<u64>) -> (r: Result<(), RunError>)
    ensures
        r is Ok,
        final(store).fuel() == Some(fuel),
        final(store).deadline() == Some(epoch_deadline(wall_ms)),
        final(store).bound() == old(store).bound(),
        final(store).calls() == old(store).calls(),
{
    store_epoch_deadline_trap(store);
    let deadline = match wall_ms {
        Some(_) => 1,
        None => EPOCH_DEADLINE_FAR_TICKS,
    };
    store_set_epoch_deadline(store, deadline);
    match store_set_fuel(store, fuel) {
        Ok(()) => Ok(()),
        Err(m) => Err(RunError::Fuel(m)),
    }
}

/// What a call reports for what `Func::call` came back with: the value; a returned value of a
/// type other than the four scalars; or the meaning of the failure (see [`call_failure_error`]).
pub open spec fn call_result(raw: RawCall, wall_ms: Option<u64>) -> Result<WasmScalar, RunError> {
    match raw {
        Ok(Ok(v)) => Ok(v),
        Ok(Err(text)) => Err(RunError::UnsupportedValue(text)),
        Err(f) => Err(call_failure_error(f, wall_ms)),
    }
}

/// What a call reports for what `Func::call` came back with (see [`call_result`]).
pub fn map_raw_call(raw: RawCall, wall_ms: Option<u64>) -> (r: Result<WasmScalar, RunError>)
    ensures
        r == call_result(raw, wall_ms),
{
    match raw {
        Ok(Ok(v)) => Ok(v),
        Ok(Err(text)) => Err(RunError::UnsupportedValue(text)),
        Err(f) => Err(map_call_failure(f, wall_ms)),
    }
}

/// One call with `args`, under `fuel` and `wall_ms`, on a store's export whose signature is
/// `sig`, taking the store's call record from `before` to `after`: refused by the signature
/// check (see [`call_shape`]) with nothing handed to `wasmtime`; or handed to `Func::call` with
/// exactly `args`, that fuel and the epoch deadline of `wall_ms`, and reported as
/// [`call_result`] of what came back.
pub open spec fn call_made(
    r: Result<WasmScalar, RunError>,
    before: Seq<StoreCall>,
    after: Seq<StoreCall>,
    sig: (Seq<ValKind>, Seq<ValKind>),
    args: Seq<WasmScalar>,
    fuel: u64,
    wall_ms: Option<u64>,
) -> bool {
    match call_shape(sig.0, sig.1, args) {
        Err(e) => r == Err::<WasmScalar, RunError>(e) && after == before,
        Ok(_) => {
            &&& after == before.push(after.last())
            &&& after.last().0 == args
            &&& after.last().1 == Some(fuel)
            &&& after.last().2 == Some(epoch_deadline(wall_ms))
            &&& r == call_result(after.last().3, wall_ms)
        },
    }
}

/// What instantiating the module `source` afresh and calling its export `export` once with
/// `args` can come to: the instantiation's failure; the missing export's error, when the module
/// exports no function of that name; otherwise the signature check's error, or what the call,
/// handed exactly `args`, came back with (`raw`).
pub open spec fn fresh_outcome(
    r: Result<WasmScalar, RunError>,
    source: Seq<u8>,
    export: Seq<char>,
    args: Seq<WasmScalar>,
    wall_ms: Option<u64>,
    raw: RawCall,
) -> bool {
    ||| r matches Err(RunError::Instantiate(_))
    ||| (!exports_function(source, export) && (r matches Err(RunError::MissingExport(x)) && x@ == export))
    ||| (exports_function(source, export) && match call_shape(
        export_signature(source, export).0,
        export_signature(source, export).1,
        args,
    ) {
        Err(e) => r == Err::<WasmScalar, RunError>(e),
        Ok(_) => r == call_result(raw, wall_ms),
    })
}

/// The arguments as `i32` scalars.
pub open spec fn i32_args(args: Seq<i32>) -> Seq<WasmScalar> {
    Seq::new(args.len(), |i: int| WasmScalar::I32(args[i]))
}

/// `r` is what an `i32` call makes of the scalar call's result `s`: its value when it is an
/// `i32`, the error naming what came back otherwise, and `s`'s own error.
pub open spec fn i32_result(r: Result<i32, RunError>, s: Result<WasmScalar, RunError>) -> bool {
    match s {
        Ok(WasmScalar::I32(v)) => r == Ok::<i32, RunError>(v),
        Ok(g) => r == Err::<i32, RunError>(RunError::ExpectedI32(g)),
        Err(e) => r == Err::<i32, RunError>(e),
    }
}

/// As [`i32_result`], for a call of the export named `export` (whose name the error carries).
pub open spec fn i32_result_from(r: Result<i32, RunError>, s: Result<WasmScalar, RunError>, export: Seq<char>) -> bool {
    match s {
        Ok(WasmScalar::I32(v)) => r == Ok::<i32, RunError>(v),
        Ok(g) => r matches Err(RunError::ExpectedI32From { export: x, got }) && x@ == export && got == g,
        Err(e) => r == Err::<i32, RunError>(e),
    }
}

/// Configures the store for one call with `fuel` and `wall_ms`, checks the signature of the
/// export in the store's slot against `args` and makes the call (see [`call_made`]).
fn invoke_scalar_on_store(store: &mut WasmStore, args: &[WasmScalar], fuel: u64, wall_ms: Option<u64>) -> (r: Result<
    WasmScalar,
    RunError,
>)
    requires
        old(store).bound() is Some,
    ensures
        final(store).bound() == old(store).bound(),
        call_made(
            r,
            old(store).calls(),
            final(store).calls(),
            export_signature(old(store).module_source(), old(store).module_export()),
            args@,
            fuel,
            wall_ms,
        ),
{
    match configure_store_for_invoke(store, fuel, wall_ms) {
        Ok(()) => {},
        Err(e) => return Err(e),
    }
    let (params, results) = slot_signature(store).unwrap();
    let rt = match check_call_shape(&params, &results, args) {
        Ok(t) => t,
        Err(e) => return Err(e),
    };
    let slot = result_slot(&rt);
    let raw = call_slot(store, args, &slot).unwrap();
    map_raw_call(raw, wall_ms)
}

/// A fresh store with `module` instantiated in it and its export `export` in the store's slot.
fn instantiate_export(engine: &MeteredEngine, module: &CompiledWasm, export: &str) -> (r: Result<WasmStore, RunError>)
    ensures
        r matches Ok(s) ==> s.bound() == Some((module.source(), export@)) && exports_function(module.source(), export@),
        r matches Err(e) ==> (e is Instantiate || (e matches RunError::MissingExport(x) && x@ == export@
            && !exports_function(module.source(), export@))),
{
    let mut store = new_store(engine);
    match instantiate_into(&mut store, module, export) {
        Ok(true) => Ok(store),
        Ok(false) => Err(RunError::MissingExport(export.to_string())),
        Err(m) => Err(RunError::Instantiate(m)),
    }
}

/// Size budget, then capability policy, for a module about to be compiled.
pub open spec fn admission(wasm: Seq<u8>, policy: WasmPolicy) -> Result<(), RunError> {
    if wasm.len() > MAX_WASM_BYTES {
        Err(RunError::TooLarge { len: wasm.len() as usize, max: MAX_WASM_BYTES })
    } else {
        match scan_verdict(wasm_payload_scan(wasm).0, wasm_payload_scan(wasm).1, policy) {
            Ok(()) => Ok(()),
            Err(e) => Err(RunError::Policy(e)),
        }
    }
}

/// Checks a module's size and capabilities before it is compiled (see [`admission`]).
pub fn admit_wasm(wasm: &[u8], policy: WasmPolicy) -> (r: Result<(), RunError>)
    ensures
        r == admission(wasm@, policy),
{
    if wasm.len() > MAX_WASM_BYTES {
        return Err(RunError::TooLarge { len: wasm.len(), max: MAX_WASM_BYTES });
    }
    match check_wasm_policy(wasm, policy) {
        Ok(()) => Ok(()),
        Err(e) => Err(RunError::Policy(e)),
    }
}

/// The policy a module is compiled under when the caller names none.
pub open spec fn default_policy() -> WasmPolicy {
    WasmPolicy { allow_imports: false, allow_memory: false, allow_tables: false }
}

/// A compiled module bound to one engine; reuse it for many invocations.
pub struct CompiledModule {
    engine: MeteredEngine,
    module: CompiledWasm,
}

/// One call a session made: the arguments, the fuel and wall-clock cap it ran under, and what
/// came back.
pub type CallRecord = (Seq<WasmScalar>, u64, Option<u64>, Result<WasmScalar, RunError>);

/// A store with one instance, its export in the store's slot, reused across calls.
pub struct InvokeSession {
    engine: MeteredEngine,
    store: WasmStore,
    export: String,
    calls: Ghost<Seq<CallRecord>>,
}

impl CompiledModule {
    /// The bytes this module was compiled from.
    pub closed spec fn source(&self) -> Seq<u8> {
        self.module.source()
    }

    /// The engine this module was compiled for.
    pub closed spec fn engine_value(&self) -> Engine {
        self.engine.raw()
    }

    /// Admits `wasm` under the default policy and compiles it.
    pub fn new(wasm: &[u8]) -> (r: Result<CompiledModule, RunError>)
        ensures
            admission(wasm@, default_policy()) matches Err(e) ==> r == Err::<CompiledModule, RunError>(e),
            admission(wasm@, default_policy()) is Ok ==> match r {
                Ok(m) => m.source() == wasm@,
                Err(e) => e is Compile,
            },
    {
        CompiledModule::new_with_policy(wasm, WasmPolicy::default())
    }

    /// Admits `wasm` under `policy` (size budget, then capabilities) and compiles it.
    pub fn new_with_policy(wasm: &[u8], policy: WasmPolicy) -> (r: Result<CompiledModule, RunError>)
        ensures
            admission(wasm@, policy) matches Err(e) ==> r == Err::<CompiledModule, RunError>(e),
            admission(wasm@, policy) is Ok ==> match r {
                Ok(m) => m.source() == wasm@,
                Err(e) => e is Compile,
            },
    {
        admit_wasm(wasm, policy)?;
        let engine = match metered_engine() {
            Ok(e) => e,
            Err(m) => return Err(RunError::Compile(m)),
        };
        let module = match compile_wasm(&engine, wasm) {
            Ok(m) => m,
            Err(m) => return Err(RunError::Compile(m)),
        };
        Ok(CompiledModule { engine, module })
    }

    /// Another handle on this module's engine (for a watchdog that raises its epoch).
    pub fn engine(&self) -> (r: Engine)
        ensures
            r == self.engine_value(),
    {
        raw_engine(&self.engine)
    }

    /// Instantiates the module once and looks up `export`, for many calls: the session runs
    /// this module's export `export` on this module's engine, and has made no call yet.
    pub fn prepare_invoke(&self, export: &str) -> (r: Result<InvokeSession, RunError>)
        ensures
            r matches Err(e) ==> (e is Instantiate || (e matches RunError::MissingExport(x) && x@ == export@
                && !exports_function(self.source(), export@))),
            r matches Ok(s) ==> s.source() == self.source() && s.export() == export@ && s.engine_value()
                == self.engine_value() && s.calls().len() == 0 && s.handed().len() == 0
                && exports_function(self.source(), export@) && s.wf(),
    {
        let mut store = new_store(&self.engine);
        store_epoch_deadline_trap(&mut store);
        store_set_epoch_deadline(&mut store, EPOCH_DEADLINE_FAR_TICKS);
        match instantiate_into(&mut store, &self.module, export) {
            Ok(true) => Ok(
                InvokeSession {
                    engine: engine_clone(&self.engine),
                    store,
                    export: export.to_string(),
                    calls: Ghost(Seq::empty()),
                },
            ),
            Ok(false) => Err(RunError::MissingExport(export.to_string())),
            Err(m) => Err(RunError::Instantiate(m)),
        }
    }

    /// Instantiates the module afresh and calls `export(args...) -> i32` under `limits`.
    pub fn invoke_i32_return(&self, export: &str, args: &[i32], limits: Limits) -> (r: Result<i32, RunError>)
        ensures
            exists|s: Result<WasmScalar, RunError>, raw: RawCall|
                #[trigger] fresh_outcome(s, self.source(), export@, i32_args(args@), limits.max_wall_ms, raw)
                    && i32_result_from(r, s, export@),
    {
        let sargs = i32_scalars(args);
        assert(sargs@ =~= i32_args(args@));
        let s = self.invoke_scalar_return(export, &sargs, limits);
        let ghost sg = s;
        let r = match s {
            Ok(got) => expect_i32_from(export, got),
            Err(e) => Err(e),
        };
        proof {
            let raw = choose|raw: RawCall| #[trigger] fresh_outcome(sg, self.source(), export@, sargs@, limits.max_wall_ms, raw);
            assert(fresh_outcome(sg, self.source(), export@, i32_args(args@), limits.max_wall_ms, raw) && i32_result_from(r, sg, export@));
        }
        r
    }

    /// Instantiates the module afresh and calls a single-result export with scalar arguments.
    pub fn invoke_scalar_return(&self, export: &str, args: &[WasmScalar], limits: Limits) -> (r: Result<
        WasmScalar,
        RunError,
    >)
        ensures
            exists|raw: RawCall| #[trigger] fresh_outcome(r, self.source(), export@, args@, limits.max_wall_ms, raw),
    {
        let mut store = match instantiate_export(&self.engine, &self.module, export) {
            Ok(store) => store,
            Err(e) => {
                let r = Err(e);
                assert(fresh_outcome(r, self.source(), export@, args@, limits.max_wall_ms, arbitrary()));
                return r;
            },
        };
        let ghost before = store.calls();
        let r = invoke_scalar_on_store(&mut store, args, limits.fuel, limits.max_wall_ms);
        proof {
            let raw = store.calls().last().3;
            assert(fresh_outcome(r, self.source(), export@, args@, limits.max_wall_ms, raw));
        }
        r
    }
}

impl InvokeSession {
    /// The session's store holds the function of its export, from its module.
    pub closed spec fn wf(&self) -> bool {
        self.store.bound() matches Some(b) && b.1 == self.export@
    }

    /// The bytes of the module this session runs.
    pub closed spec fn source(&self) -> Seq<u8> {
        self.store.module_source()
    }

    /// The name of the export this session calls.
    pub closed spec fn export(&self) -> Seq<char> {
        self.export@
    }

    /// The engine this session runs on.
    pub closed spec fn engine_value(&self) -> Engine {
        self.engine.raw()
    }

    /// The calls this session has made, oldest first, as it reported them.
    pub closed spec fn calls(&self) -> Seq<CallRecord> {
        self.calls@
    }

    /// What `Func::call` was handed and came back with, for each call that passed the signature
    /// check, oldest first (with the fuel and epoch deadline the store had).
    pub closed spec fn handed(&self) -> Seq<StoreCall> {
        self.store.calls()
    }

    /// Another handle on the session's engine (for a watchdog that raises its epoch).
    pub fn engine(&self) -> (r: Engine)
        ensures
            r == self.engine_value(),
    {
        raw_engine(&self.engine)
    }

    /// The name of the export this session calls.
    pub fn export_name(&self) -> (r: &str)
        ensures
            r@ == self.export(),
    {
        self.export.as_str()
    }

    /// Calls the export with `i32` arguments (fuel reset, fresh epoch deadline). The call is
    /// the scalar call with the arguments as `i32` scalars; `r` is what [`i32_result`] makes of it.
    pub fn invoke_i32_return(&mut self, args: &[i32], limits: Limits) -> (r: Result<i32, RunError>)
        requires
            old(self).wf(),
        ensures
            final(self).wf(),
            call_made(
                final(self).calls().last().3,
                old(self).handed(),
                final(self).handed(),
                export_signature(old(self).source(), old(self).export()),
                i32_args(args@),
                limits.fuel,
                limits.max_wall_ms,
            ),
            i32_result(r, final(self).calls().last().3),
            final(self).calls() == old(self).calls().push(final(self).calls().last()),
            final(self).calls().last().0 == i32_args(args@),
            final(self).calls().last().1 == limits.fuel,
            final(self).calls().last().2 == limits.max_wall_ms,
            final(self).source() == old(self).source(),
            final(self).export() == old(self).export(),
            final(self).engine_value() == old(self).engine_value(),
    {
        let sargs = i32_scalars(args);
        assert(sargs@ =~= i32_args(args@));
        let s = self.invoke_scalar_return(&sargs, limits);
        match s {
            Ok(got) => expect_i32(got),
            Err(e) => Err(e),
        }
    }

    /// Calls the export with scalar arguments (fuel reset, fresh epoch deadline): the call is
    /// handed to `Func::call` with exactly `args` unless the signature check refuses it (see
    /// [`call_made`]), and recorded with its arguments, fuel, wall-clock cap and outcome.
    pub fn invoke_scalar_return(&mut self, args: &[WasmScalar], limits: Limits) -> (r: Result<WasmScalar, RunError>)
        requires
            old(self).wf(),
        ensures
            final(self).wf(),
            call_made(
                r,
                old(self).handed(),
                final(self).handed(),
                export_signature(old(self).source(), old(self).export()),
                args@,
                limits.fuel,
                limits.max_wall_ms,
            ),
            final(self).calls() == old(self).calls().push((args@, limits.fuel, limits.max_wall_ms, r)),
            final(self).source() == old(self).source(),
            final(self).export() == old(self).export(),
            final(self).engine_value() == old(self).engine_value(),
    {
        let r = invoke_scalar_on_store(&mut self.store, args, limits.fuel, limits.max_wall_ms);
        proof {
            self.calls@ = self.calls@.push((args@, limits.fuel, limits.max_wall_ms, r));
        }
        r
    }
}

/// The arguments as `i32` scalars.
pub fn i32_scalars(args: &[i32]) -> (r: Vec<WasmScalar>)
    ensures
        r@.len() == args@.len(),
        forall|i: int| 0 <= i < args@.len() ==> r@[i] == WasmScalar::I32(args@[i]),
{
    let mut r: Vec<WasmScalar> = Vec::new();
    let mut i: usize = 0;
    while i < args.len()
        invariant
            i <= args@.len(),
            r@.len() == i,
            forall|j: int| 0 <= j < i ==> r@[j] == WasmScalar::I32(args@[j]),
        decreases args@.len() - i,
    {
        r.push(WasmScalar::I32(args[i]));
        i = i + 1;
    }
    r
}

/// Admits and compiles `wasm` under the default policy, then calls `export(args...) -> i32`.
pub fn invoke_i32_return(wasm: &[u8], export: &str, args: &[i32], limits: Limits) -> (r: Result<i32, RunError>)
    ensures
        admission(wasm@, default_policy()) matches Err(e) ==> r == Err::<i32, RunError>(e),
        admission(wasm@, default_policy()) is Ok ==> (r matches Err(RunError::Compile(_)) || exists|
            s: Result<WasmScalar, RunError>,
            raw: RawCall,
        |
            #[trigger] fresh_outcome(s, wasm@, export@, i32_args(args@), limits.max_wall_ms, raw) && i32_result_from(
                r,
                s,
                export@,
            )),
{
    let module = CompiledModule::new(wasm)?;
    module.invoke_i32_return(export, args, limits)
}

/// Admits and compiles `wasm` under the default policy, then calls a single-result export.
pub fn invoke_scalar_return(wasm: &[u8], export: &str, args: &[WasmScalar], limits: Limits) -> (r: Result<
    WasmScalar,
    RunError,
>)
    ensures
        admission(wasm@, default_policy()) matches Err(e) ==> r == Err::<WasmScalar, RunError>(e),
        admission(wasm@, default_policy()) is Ok ==> (r matches Err(RunError::Compile(_)) || exists|raw: RawCall|
            #[trigger] fresh_outcome(r, wasm@, export@, args@, limits.max_wall_ms, raw)),
{
    let module = CompiledModule::new(wasm)?;
    module.invoke_scalar_return(export, args, limits)
}

/// Printed form of a value type (as `wasmtime` prints it).
pub open spec fn kind_text(k: ValKind) -> Seq<char> {
    match k {
        ValKind::I32 => "i32"@,
        ValKind::I64 => "i64"@,
        ValKind::F32 => "f32"@,
        ValKind::F64 => "f64"@,
        ValKind::Other(s) => s@,
    }
}

/// Debug form of a scalar (floating-point values by their bit patterns).
pub open spec fn scalar_text(s: WasmScalar) -> Seq<char> {
    match s {
        WasmScalar::I32(v) => "I32("@ + signed_decimal(v as int) + ")"@,
        WasmScalar::I64(v) => "I64("@ + signed_decimal(v as int) + ")"@,
        WasmScalar::F32(b) => "F32(bits "@ + decimal(b as nat) + ")"@,
        WasmScalar::F64(b) => "F64(bits "@ + decimal(b as nat) + ")"@,
    }
}

fn push_kind_text(out: &mut String, k: &ValKind)
    ensures
        final(out)@ == old(out)@ + kind_text(*k),
{
    match k {
        ValKind::I32 => out.append("i32"),
        ValKind::I64 => out.append("i64"),
        ValKind::F32 => out.append("f32"),
        ValKind::F64 => out.append("f64"),
        ValKind::Other(s) => out.append(s.as_str()),
    }
}

fn push_scalar_text(out: &mut String, s: &WasmScalar)
    ensures
        final(out)@ == old(out)@ + scalar_text(*s),
{
    let ghost start = out@;
    match s {
        WasmScalar::I32(v) => {
            out.append("I32(");
            push_signed_decimal(out, *v as i64);
            out.append(")");
        },
        WasmScalar::I64(v) => {
            out.append("I64(");
            push_signed_decimal(out, *v);
            out.append(")");
        },
        WasmScalar::F32(b) => {
            out.append("F32(bits ");
            push_decimal(out, *b as u64);
            out.append(")");
        },
        WasmScalar::F64(b) => {
            out.append("F64(bits ");
            push_decimal(out, *b);
            out.append(")");
        },
    }
    assert(out@ =~= start + scalar_text(*s));
}

/// The message of a compile or run error.
pub open spec fn run_message(e: RunError) -> Seq<char> {
    match e {
        RunError::TooLarge { len, max } => "wasm module too large ("@ + decimal(len as nat) + " bytes, max "@
            + decimal(max as nat) + ")"@,
        RunError::Policy(p) => policy_message(p),
        RunError::Compile(m) => m@,
        RunError::Instantiate(m) => m@,
        RunError::MissingExport(x) => "missing export `"@ + x@ + "`"@,
        RunError::Fuel(m) => m@,
        RunError::Arity { expected, got } => "arity mismatch: wasm expects "@ + decimal(expected as nat)
            + ", got "@ + decimal(got as nat),
        RunError::ResultCount(n) => "only single-result exports are supported (got "@ + decimal(n as nat)
            + " results)"@,
        RunError::ParamType { index, expected, passed } => "param "@ + decimal(index as nat)
            + ": wasm expects "@ + kind_text(expected) + ", caller passed "@ + kind_text(passed),
        RunError::UnsupportedResult(k) => "unsupported wasm result type "@ + kind_text(k),
        RunError::WallClockTimeout(ms) => "wall-clock timeout exceeded ("@ + decimal(ms as nat) + " ms)"@,
        RunError::Trapped(d) => "wasm invoke trapped: "@ + d@,
        RunError::UnsupportedValue(v) => "unsupported wasm value type: "@ + v@,
        RunError::ExpectedI32(g) => "expected i32 return, got "@ + scalar_text(g),
        RunError::ExpectedI32From { export, got } => "expected i32 return from wasm export `"@ + export@
            + "`, got "@ + scalar_text(got),
    }
}

impl RunError {
    /// The message of this error.
    pub fn message(&self) -> (r: String)
        ensures
            r@ == run_message(*self),
    {
        let mut out = String::new();
        match self {
            RunError::TooLarge { len, max } => {
                out.append("wasm module too large (");
                push_decimal(&mut out, *len as u64);
                out.append(" bytes, max ");
                push_decimal(&mut out, *max as u64);
                out.append(")");
            },
            RunError::Policy(p) => {
                let m = p.message();
                out.append(m.as_str());
            },
            RunError::Compile(m) => out.append(m.as_str()),
            RunError::Instantiate(m) => out.append(m.as_str()),
            RunError::MissingExport(x) => {
                out.append("missing export `");
                out.append(x.as_str());
                out.append("`");
            },
            RunError::Fuel(m) => out.append(m.as_str()),
            RunError::Arity { expected, got } => {
                out.append("arity mismatch: wasm expects ");
                push_decimal(&mut out, *expected as u64);
                out.append(", got ");
                push_decimal(&mut out, *got as u64);
            },
            RunError::ResultCount(n) => {
                out.append("only single-result exports are supported (got ");
                push_decimal(&mut out, *n as u64);
                out.append(" results)");
            },
            RunError::ParamType { index, expected, passed } => {
                out.append("param ");
                push_decimal(&mut out, *index as u64);
                out.append(": wasm expects ");
                push_kind_text(&mut out, expected);
                out.append(", caller passed ");
                push_kind_text(&mut out, passed);
            },
            RunError::UnsupportedResult(k) => {
                out.append("unsupported wasm result type ");
                push_kind_text(&mut out, k);
            },
            RunError::WallClockTimeout(ms) => {
                out.append("wall-clock timeout exceeded (");
                push_decimal(&mut out, *ms);
                out.append(" ms)");
            },
            RunError::Trapped(d) => {
                out.append("wasm invoke trapped: ");
                out.append(d.as_str());
            },
            RunError::UnsupportedValue(v) => {
                out.append("unsupported wasm value type: ");
                out.append(v.as_str());
            },
            RunError::ExpectedI32(g) => {
                out.append("expected i32 return, got ");
                push_scalar_text(&mut out, g);
            },
            RunError::ExpectedI32From { export, got } => {
                out.append("expected i32 return from wasm export `");
                out.append(export.as_str());
                out.append("`, got ");
                push_scalar_text(&mut out, got);
            },
        }
        assert(out@ =~= run_message(*self));
        out
    }
}

} // verus!
