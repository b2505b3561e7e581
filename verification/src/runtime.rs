//! The `wasmtime` engine, compiled module and store as this library holds them, and the trusted
//! calls into `wasmtime` on them.
//!
//! Every value of the three types of this file is built by one of the trusted calls below, and
//! only those calls change their ghost state: no verified code constructs one or writes a field.
//! So an engine here always meters fuel, a compiled module always carries the bytes it was
//! compiled from, and a store's ghost state says which module and export it holds, the fuel and
//! epoch deadline last set, and every `Func::call` made on it, with what it was handed and what
//! came back.
use vstd::prelude::*;
use wasmtime::{Engine, Instance, Store, Val};
use wasmtime::Func as WasmtimeFunc;
use wasmtime::ValType as WasmtimeValType;
use wasmtime::Module as WasmtimeModule;
use crate::exec::{CallFailure, ValKind, WasmScalar, EPOCH_DEADLINE_FAR_TICKS};

verus! {

#[verifier::external_type_specification]
#[verifier::external_body]
pub struct ExEngine(Engine);

#[verifier::external_type_specification]
#[verifier::external_body]
pub struct ExWasmtimeModule(WasmtimeModule);

#[verifier::external_type_specification]
#[verifier::external_body]
#[verifier::reject_recursive_types(T)]
pub struct ExStore<T: 'static>(Store<T>);

#[verifier::external_type_specification]
#[verifier::external_body]
pub struct ExFunc(WasmtimeFunc);

#[verifier::external_type_specification]
#[verifier::external_body]
pub struct ExVal(Val);

#[verifier::external_type_specification]
#[verifier::external_body]
pub struct ExWasmtimeValType(WasmtimeValType);

/// Parameter and result types (`Func::ty`) of the function that an instance of the module
/// `wasm` exports as `export`.
pub uninterp spec fn export_signature(wasm: Seq<u8>, export: Seq<char>) -> (Seq<ValKind>, Seq<ValKind>);

/// Whether an instance of the module `wasm` exports a function named `export`
/// (`Instance::get_func` finds one).
pub uninterp spec fn exports_function(wasm: Seq<u8>, export: Seq<char>) -> bool;

/// What `Func::call` came to: the returned value (or the printed form of a value that is none of
/// the four scalars), or how the call failed.
pub type RawCall = Result<Result<WasmScalar, String>, CallFailure>;

/// One `Func::call` made on a store: the arguments, the fuel and epoch deadline last set on the
/// store before it, and what came back.
pub type StoreCall = (Seq<WasmScalar>, Option<u64>, Option<u64>, RawCall);

/// A `wasmtime` engine with fuel metering and epoch interruption switched on.
pub struct MeteredEngine {
    engine: Engine,
}

/// A module compiled for a metered engine, and the bytes it was compiled from.
pub struct CompiledWasm {
    module: WasmtimeModule,
    source: Ghost<Seq<u8>>,
}

/// A store of a metered engine. Its data slot holds the function its instance exports, so a
/// function is only ever used with the store that owns it.
pub struct WasmStore {
    store: Store<Option<WasmtimeFunc>>,
    bound: Ghost<Option<(Seq<u8>, Seq<char>)>>,
    fuel: Ghost<Option<u64>>,
    deadline: Ghost<Option<u64>>,
    calls: Ghost<Seq<StoreCall>>,
}

impl MeteredEngine {
    /// The `wasmtime` engine.
    pub closed spec fn raw(&self) -> Engine {
        self.engine
    }
}

impl CompiledWasm {
    /// The bytes this module was compiled from.
    pub closed spec fn source(&self) -> Seq<u8> {
        self.source@
    }
}

impl WasmStore {
    /// The module bytes and export name whose function is in the store's slot, once an
    /// instantiation found it.
    pub closed spec fn bound(&self) -> Option<(Seq<u8>, Seq<char>)> {
        self.bound@
    }

    /// The bytes of the module whose export is in the store's slot.
    pub open spec fn module_source(&self) -> Seq<u8> {
        match self.bound() {
            Some(b) => b.0,
            None => Seq::empty(),
        }
    }

    /// The name of the export in the store's slot.
    pub open spec fn module_export(&self) -> Seq<char> {
        match self.bound() {
            Some(b) => b.1,
            None => Seq::empty(),
        }
    }

    /// The fuel last set on the store.
    pub closed spec fn fuel(&self) -> Option<u64> {
        self.fuel@
    }

    /// The epoch deadline (in ticks beyond the current epoch) last set on the store.
    pub closed spec fn deadline(&self) -> Option<u64> {
        self.deadline@
    }

    /// The calls made on the store's function, oldest first.
    pub closed spec fn calls(&self) -> Seq<StoreCall> {
        self.calls@
    }
}

/// `b`'s ghost state is `a`'s, but for what the given call changes.
pub open spec fn same_store_state(a: WasmStore, b: WasmStore) -> bool {
    &&& b.bound() == a.bound()
    &&& b.fuel() == a.fuel()
    &&& b.deadline() == a.deadline()
    &&& b.calls() == a.calls()
}

/// `wasmtime::Engine::new` with `Config::consume_fuel` and `Config::epoch_interruption` on.
#[verifier::external_body]
pub fn metered_engine() -> Result<MeteredEngine, String> {
    let mut config = wasmtime::Config::new();
    config.consume_fuel(true);
    config.epoch_interruption(true);
    match Engine::new(&config) {
        Ok(engine) => Ok(MeteredEngine { engine }),
        Err(e) => Err(format!("{e:#}")),
    }
}

/// `Engine::clone`: another handle on the same engine (`wasmtime`'s `Engine` is a shared
/// reference, and its derived `Clone` clones that reference).
#[verifier::external_body]
pub fn engine_clone(e: &MeteredEngine) -> (r: MeteredEngine)
    ensures
        r == *e,
{
    MeteredEngine { engine: e.engine.clone() }
}

/// `Engine::clone`, handed out as a plain `wasmtime` engine (for a watchdog that raises its
/// epoch).
#[verifier::external_body]
pub fn raw_engine(e: &MeteredEngine) -> (r: Engine)
    ensures
        r == e.raw(),
{
    e.engine.clone()
}

/// `wasmtime::Module::from_binary`: validates and compiles `wasm` for `engine`.
#[verifier::external_body]
pub fn compile_wasm(engine: &MeteredEngine, wasm: &[u8]) -> (r: Result<CompiledWasm, String>)
    ensures
        r matches Ok(m) ==> m.source() == wasm@,
{
    match WasmtimeModule::from_binary(&engine.engine, wasm) {
        Ok(module) => Ok(CompiledWasm { module, source: Ghost(wasm@) }),
        Err(e) => Err(format!("{e:#}")),
    }
}

/// `wasmtime::Store::new` with an empty data slot.
#[verifier::external_body]
pub fn new_store(engine: &MeteredEngine) -> (s: WasmStore)
    ensures
        s.bound() is None,
        s.fuel() is None,
        s.deadline() is None,
        s.calls() == Seq::<StoreCall>::empty(),
{
    WasmStore {
        store: Store::new(&engine.engine, None),
        bound: Ghost(None),
        fuel: Ghost(None),
        deadline: Ghost(None),
        calls: Ghost(Seq::empty()),
    }
}

/// `Store::epoch_deadline_trap`: reaching the epoch deadline traps.
#[verifier::external_body]
pub fn store_epoch_deadline_trap(s: &mut WasmStore)
    ensures
        same_store_state(*old(s), *final(s)),
{
    s.store.epoch_deadline_trap();
}

/// `Store::set_epoch_deadline`: the deadline becomes the engine's current epoch plus `ticks`, an
/// addition that must not overflow. The epoch moves only when a host watchdog raises it, once
/// per capped call, so `requires` keeps `ticks` at most the far deadline, a quarter of the range.
#[verifier::external_body]
pub fn store_set_epoch_deadline(s: &mut WasmStore, ticks: u64)
    requires
        ticks <= EPOCH_DEADLINE_FAR_TICKS,
    ensures
        final(s).deadline() == Some(ticks),
        final(s).bound() == old(s).bound(),
        final(s).fuel() == old(s).fuel(),
        final(s).calls() == old(s).calls(),
{
    s.store.set_epoch_deadline(ticks);
}

/// `Store::set_fuel`. Its only failure is a store whose engine does not meter fuel, and every
/// store here belongs to a metered engine, so it sets the fuel.
#[verifier::external_body]
pub fn store_set_fuel(s: &mut WasmStore, fuel: u64) -> (r: Result<(), String>)
    ensures
        r is Ok,
        final(s).fuel() == Some(fuel),
        final(s).bound() == old(s).bound(),
        final(s).deadline() == old(s).deadline(),
        final(s).calls() == old(s).calls(),
{
    s.store.set_fuel(fuel).map_err(|e| format!("{e:#}"))
}

/// `wasmtime::Instance::new` with no imports, then `Instance::get_func` for `export` on that
/// instance in the same store (which owns it); what `get_func` gives is put in the store's slot.
/// `Ok(found)`: whether the module exports a function named `export`.
#[verifier::external_body]
pub fn instantiate_into(s: &mut WasmStore, module: &CompiledWasm, export: &str) -> (r: Result<bool, String>)
    requires
        old(s).bound() is None,
    ensures
        r matches Ok(found) ==> found == exports_function(module.source(), export@),
        final(s).bound() == (if r == Ok::<bool, String>(true) {
            Some((module.source(), export@))
        } else {
            None
        }),
        final(s).fuel() == old(s).fuel(),
        final(s).deadline() == old(s).deadline(),
        final(s).calls() == old(s).calls(),
{
    let instance = Instance::new(&mut s.store, &module.module, &[]).map_err(|e| format!("{e:#}"))?;
    let func = instance.get_func(&mut s.store, export);
    *s.store.data_mut() = func;
    Ok(func.is_some())
}

/// `Func::ty` of the function in the store's slot: its parameter and result types.
#[verifier::external_body]
pub fn slot_signature(s: &WasmStore) -> (r: Option<(Vec<ValKind>, Vec<ValKind>)>)
    requires
        s.bound() is Some,
    ensures
        r is Some,
        r matches Some(sig) ==> sig.0@ == export_signature(s.module_source(), s.module_export()).0,
        r matches Some(sig) ==> sig.1@ == export_signature(s.module_source(), s.module_export()).1,
{
    match *s.store.data() {
        Some(func) => {
            let ty = func.ty(&s.store);
            Some((ty.params().map(|t| val_kind(&t)).collect(), ty.results().map(|t| val_kind(&t)).collect()))
        },
        None => None,
    }
}

/// Converts a `wasmtime` value type (one arm per scalar variant, the rest by its printed form).
#[verifier::external_body]
fn val_kind(t: &WasmtimeValType) -> ValKind {
    match t {
        WasmtimeValType::I32 => ValKind::I32,
        WasmtimeValType::I64 => ValKind::I64,
        WasmtimeValType::F32 => ValKind::F32,
        WasmtimeValType::F64 => ValKind::F64,
        other => ValKind::Other(other.to_string()),
    }
}

/// `Func::call` on the function in the store's slot with the scalar arguments `args` and one
/// result slot holding `slot`; a failure is reported with whether its root cause is an epoch
/// interrupt. The call is recorded with the arguments handed over, the store's fuel and deadline,
/// and what came back.
#[verifier::external_body]
pub fn call_slot(s: &mut WasmStore, args: &[WasmScalar], slot: &WasmScalar) -> (r: Option<RawCall>)
    requires
        old(s).bound() is Some,
    ensures
        r is Some,
        final(s).calls() == old(s).calls().push((args@, old(s).fuel(), old(s).deadline(), r->0)),
        final(s).bound() == old(s).bound(),
        final(s).fuel() == old(s).fuel(),
        final(s).deadline() == old(s).deadline(),
{
    let func: WasmtimeFunc = (*s.store.data())?;
    let params: Vec<Val> = args.iter().map(val_of).collect();
    let mut results = [val_of(slot)];
    Some(match func.call(&mut s.store, &params, &mut results) {
        Ok(()) => Ok(scalar_of(&results[0])),
        Err(e) => Err(CallFailure {
            interrupted: matches!(e.root_cause().downcast_ref::<wasmtime::Trap>(), Some(wasmtime::Trap::Interrupt)),
            detail: format!("{e:#}"),
        }),
    })
}

/// Converts a scalar into a `wasmtime` value (one arm per variant).
#[verifier::external_body]
fn val_of(s: &WasmScalar) -> Val {
    match *s {
        WasmScalar::I32(v) => Val::I32(v),
        WasmScalar::I64(v) => Val::I64(v),
        WasmScalar::F32(b) => Val::F32(b),
        WasmScalar::F64(b) => Val::F64(b),
    }
}

/// Converts a `wasmtime` value into a scalar (one arm per scalar variant); any other value by
/// its printed form.
#[verifier::external_body]
fn scalar_of(v: &Val) -> Result<WasmScalar, String> {
    match v {
        Val::I32(x) => Ok(WasmScalar::I32(*x)),
        Val::I64(x) => Ok(WasmScalar::I64(*x)),
        Val::F32(b) => Ok(WasmScalar::F32(*b)),
        Val::F64(b) => Ok(WasmScalar::F64(*b)),
        other => Err(format!("{other:?}")),
    }
}

} // verus!
