//! The embedded interpreter: declarations of its types and the trusted calls
//! into it. Each function here makes the calls of one interpreter step and
//! converts their arguments and results.
//!
//! A store and the linker and module of its engine are only ever handed out
//! together, in `Linking`, and the instance lives only inside `run_module`,
//! so that no call can meet a handle of another store or engine.
use vstd::prelude::*;
use wasmi::{Caller, Engine, Extern, Func, Linker, Module, Store};
use wasmi::errors::{LinkerError, MemoryError};
use crate::embedding::InvocationError;
use crate::host::HostState;
use crate::trampolines::{host_input, host_log_utf8, host_read_register, host_register_len};

verus! {

#[verifier::external_type_specification]
#[verifier::external_body]
#[verifier::reject_recursive_types(T)]
pub struct ExCaller<'a, T>(Caller<'a, T>);

#[verifier::external_type_specification]
#[verifier::external_body]
pub struct ExMemoryError(MemoryError);

#[verifier::external_type_specification]
#[verifier::external_body]
pub struct ExTrap(wasmi::core::Trap);

#[verifier::external_type_specification]
#[verifier::external_body]
pub struct ExError(wasmi::Error);

#[verifier::external_type_specification]
#[verifier::external_body]
pub struct ExLinkerError(LinkerError);

#[verifier::external_type_specification]
#[verifier::external_body]
pub struct ExModule(Module);

#[verifier::external_type_specification]
#[verifier::external_body]
#[verifier::reject_recursive_types(T)]
pub struct ExStore<T>(Store<T>);

#[verifier::external_type_specification]
#[verifier::external_body]
#[verifier::reject_recursive_types(T)]
pub struct ExLinker<T>(Linker<T>);

/// Whether `Module::new`, on an engine of the default configuration, accepts
/// `wasm` as a valid module.
pub uninterp spec fn module_valid(wasm: Seq<u8>) -> bool;

/// Which host function the linker of `l` defines under each (module, name).
pub uninterp spec fn linking_defines(l: Linking) -> Map<(Seq<char>, Seq<char>), HostFn>;

/// The bytecode the module of `l` was compiled from.
pub uninterp spec fn linking_module(l: Linking) -> Seq<u8>;

/// Whether module `wasm` can be instantiated with the host functions
/// `imports` defined: every import is defined with a matching type.
pub uninterp spec fn instantiates(wasm: Seq<u8>, imports: Map<(Seq<char>, Seq<char>), HostFn>) -> bool;

/// Whether the start function of `wasm`, where it declares one, returns
/// without a trap when run with `imports` from the host state
/// (`input`, `registers`, `logs`).
pub uninterp spec fn starts(
    wasm: Seq<u8>,
    imports: Map<(Seq<char>, Seq<char>), HostFn>,
    input: Seq<u8>,
    registers: Map<u64, Seq<u8>>,
    logs: Seq<Seq<u8>>,
) -> bool;

/// Whether `wasm` exports a function `entry` that takes and returns nothing.
pub uninterp spec fn has_entry(wasm: Seq<u8>, entry: Seq<char>) -> bool;

/// The host state (input, registers, logs) after instantiating `wasm` with
/// `imports` from the host state (`input`, `registers`, `logs`), starting it
/// and running `entry` to its end; `None` where `entry` traps.
pub uninterp spec fn entry_run(
    wasm: Seq<u8>,
    imports: Map<(Seq<char>, Seq<char>), HostFn>,
    entry: Seq<char>,
    input: Seq<u8>,
    registers: Map<u64, Seq<u8>>,
    logs: Seq<Seq<u8>>,
) -> Option<(Seq<u8>, Map<u64, Seq<u8>>, Seq<Seq<u8>>)>;

/// The input bytes of the host state the store of `l` owns.
pub uninterp spec fn linking_input(l: Linking) -> Seq<u8>;

/// The registers of the host state the store of `l` owns.
pub uninterp spec fn linking_registers(l: Linking) -> Map<u64, Seq<u8>>;

/// The log lines of the host state the store of `l` owns.
pub uninterp spec fn linking_logs(l: Linking) -> Seq<Seq<u8>>;

/// The input bytes of the host state of the store a guest call runs in.
pub uninterp spec fn caller_input(caller: Caller<'_, HostState>) -> Seq<u8>;

/// The registers of the host state of the store a guest call runs in.
pub uninterp spec fn caller_registers(caller: Caller<'_, HostState>) -> Map<u64, Seq<u8>>;

/// The log lines of the host state of the store a guest call runs in.
pub uninterp spec fn caller_logs(caller: Caller<'_, HostState>) -> Seq<Seq<u8>>;

/// The bytes of the linear memory the calling instance exports under `name`,
/// or `None` where it exports no memory under that name.
pub uninterp spec fn guest_memory(caller: Caller<'_, HostState>, name: Seq<char>) -> Option<Seq<u8>>;

/// The host functions a guest can import.
#[derive(Clone, Copy, Debug, PartialEq, Eq)]
pub enum HostFn {
    /// `input(register_id)`
    Input,
    /// `read_register(register_id, ptr)`
    ReadRegister,
    /// `register_len(register_id)`
    RegisterLen,
    /// `log_utf8(len, ptr)`
    LogUtf8,
}

/// A compiled module, the store it will run in and the linker that resolves
/// its imports, all of one engine.
pub struct Linking {
    store: Store<HostState>,
    linker: Linker<HostState>,
    module: Module,
}

/// Relies on `Caller::data`: the host state of the store the guest runs in.
#[verifier::external_body]
pub(crate) fn host_state<'a, 'b>(caller: &'a Caller<'b, HostState>) -> (r: &'a HostState)
    ensures
        r.input@ == caller_input(*caller),
        r.registers@ == caller_registers(*caller),
        r.logged() == caller_logs(*caller),
{
    caller.data()
}

/// Relies on `Caller::data_mut`: puts `state` in place of the host state of
/// the store the guest runs in, and hands back the state it replaced. Guest
/// memory is left as it was.
#[verifier::external_body]
pub(crate) fn replace_host_state(caller: &mut Caller<'_, HostState>, state: HostState) -> (r: HostState)
    ensures
        r.input@ == caller_input(*old(caller)),
        r.registers@ == caller_registers(*old(caller)),
        r.logged() == caller_logs(*old(caller)),
        caller_input(*final(caller)) == state.input@,
        caller_registers(*final(caller)) == state.registers@,
        caller_logs(*final(caller)) == state.logged(),
        forall|n: Seq<char>| guest_memory(*final(caller), n) == guest_memory(*old(caller), n),
{
    std::mem::replace(caller.data_mut(), state)
}

/// Relies on `Caller::get_export`, `Extern::into_memory` and `Memory::data`:
/// the size of the memory the calling instance exports under `name`.
#[verifier::external_body]
pub(crate) fn guest_memory_len(caller: &Caller<'_, HostState>, name: &str) -> (r: Option<usize>)
    ensures
        match guest_memory(*caller, name@) {
            Some(m) => r is Some && r->Some_0 as int == m.len() && m.len() <= isize::MAX,
            None => r is None,
        },
{
    let memory = caller.get_export(name).and_then(Extern::into_memory)?;
    Some(memory.data(caller).len())
}

/// Relies on `Caller::get_export`, `Extern::into_memory` and `Memory::read`:
/// `len` bytes from `offset` of the memory the calling instance exports under
/// `name`, or an error where that range lies outside it.
#[verifier::external_body]
pub(crate) fn guest_memory_read(
    caller: &Caller<'_, HostState>,
    name: &str,
    offset: usize,
    len: usize,
) -> (r: Option<Result<Vec<u8>, MemoryError>>)
    requires
        offset + len <= usize::MAX,
        len <= isize::MAX,
    ensures
        match guest_memory(*caller, name@) {
            Some(m) => r is Some && (r->Some_0 is Ok <==> offset + len <= m.len()) && (r->Some_0 is Ok
                ==> r->Some_0->Ok_0@ == m.subrange(offset as int, offset + len)),
            None => r is None,
        },
{
    let memory = caller.get_export(name).and_then(Extern::into_memory)?;
    let mut buffer = vec![0u8; len];
    Some(memory.read(caller, offset, &mut buffer).map(|_| buffer))
}

/// Relies on `Caller::get_export`, `Extern::into_memory` and `Memory::write`:
/// copies `bytes` from `offset` into the memory the calling instance exports
/// under `name`, or returns an error where that range lies outside it. The
/// host state is left as it was.
#[verifier::external_body]
pub(crate) fn guest_memory_write(
    caller: &mut Caller<'_, HostState>,
    name: &str,
    offset: usize,
    bytes: &[u8],
) -> (r: Option<Result<(), MemoryError>>)
    requires
        offset + bytes@.len() <= usize::MAX,
    ensures
        caller_input(*final(caller)) == caller_input(*old(caller)),
        caller_registers(*final(caller)) == caller_registers(*old(caller)),
        caller_logs(*final(caller)) == caller_logs(*old(caller)),
        match guest_memory(*old(caller), name@) {
            Some(m) => r is Some && m.len() <= isize::MAX && (r->Some_0 is Ok <==> offset + bytes@.len() <= m.len()) && (
            guest_memory(*final(caller), name@) == if offset + bytes@.len() <= m.len() {
                Some(m.subrange(0, offset as int) + bytes@ + m.subrange(offset + bytes@.len(), m.len() as int))
            } else {
                Some(m)
            }),
            None => r is None && guest_memory(*final(caller), name@) == None::<Seq<u8>>,
        },
{
    let memory = caller.get_export(name).and_then(Extern::into_memory)?;
    Some(memory.write(caller, offset, bytes))
}

/// Relies on `Trap::new`: a trap that carries `message`.
#[verifier::external_body]
pub(crate) fn trap(message: &str) -> (r: wasmi::core::Trap) {
    wasmi::core::Trap::new(message)
}

/// Relies on `Engine::default`, `Module::new`, `Store::new` and `Linker::new`:
/// compiles `wasm` on a fresh engine and sets up a store that owns `state` and
/// a linker with nothing defined, or returns the compile error.
#[verifier::external_body]
pub(crate) fn load(wasm: &[u8], state: HostState) -> (r: Result<Linking, wasmi::Error>)
    ensures
        r is Ok <==> module_valid(wasm@),
        r is Ok ==> {
            &&& linking_defines(r->Ok_0) == Map::<(Seq<char>, Seq<char>), HostFn>::empty()
            &&& linking_module(r->Ok_0) == wasm@
            &&& linking_input(r->Ok_0) == state.input@
            &&& linking_registers(r->Ok_0) == state.registers@
            &&& linking_logs(r->Ok_0) == state.logged()
        },
{
    let engine = Engine::default();
    let module = Module::new(&engine, wasm)?;
    Ok(Linking { store: Store::new(&engine, state), linker: Linker::new(&engine), module })
}

/// Relies on `Func::wrap` and `Linker::define`: makes the `input` call the
/// import `module`.`name`, or fails where that name is already defined.
#[verifier::external_body]
pub(crate) fn define_input(l: &mut Linking, module: &str, name: &str) -> (r: Result<(), LinkerError>)
    ensures
        r is Ok <==> !linking_defines(*old(l)).dom().contains((module@, name@)),
        linking_defines(*final(l)) == if r is Ok {
            linking_defines(*old(l)).insert((module@, name@), HostFn::Input)
        } else {
            linking_defines(*old(l))
        },
        linking_module(*final(l)) == linking_module(*old(l)),
        linking_input(*final(l)) == linking_input(*old(l)),
        linking_registers(*final(l)) == linking_registers(*old(l)),
        linking_logs(*final(l)) == linking_logs(*old(l)),
{
    let f = Func::wrap(&mut l.store, |mut caller: Caller<'_, HostState>, id: i64| host_input(&mut caller, id));
    l.linker.define(module, name, f).map(|_| ())
}

/// Relies on `Func::wrap` and `Linker::define`: makes the `read_register` call
/// the import `module`.`name`, or fails where that name is already defined.
#[verifier::external_body]
pub(crate) fn define_read_register(l: &mut Linking, module: &str, name: &str) -> (r: Result<(), LinkerError>)
    ensures
        r is Ok <==> !linking_defines(*old(l)).dom().contains((module@, name@)),
        linking_defines(*final(l)) == if r is Ok {
            linking_defines(*old(l)).insert((module@, name@), HostFn::ReadRegister)
        } else {
            linking_defines(*old(l))
        },
        linking_module(*final(l)) == linking_module(*old(l)),
        linking_input(*final(l)) == linking_input(*old(l)),
        linking_registers(*final(l)) == linking_registers(*old(l)),
        linking_logs(*final(l)) == linking_logs(*old(l)),
{
    let f = Func::wrap(&mut l.store, |mut caller: Caller<'_, HostState>, id: i64, ptr: i64| {
        host_read_register(&mut caller, id, ptr)
    });
    l.linker.define(module, name, f).map(|_| ())
}

/// Relies on `Func::wrap` and `Linker::define`: makes the `register_len` call
/// the import `module`.`name`, or fails where that name is already defined.
#[verifier::external_body]
pub(crate) fn define_register_len(l: &mut Linking, module: &str, name: &str) -> (r: Result<(), LinkerError>)
    ensures
        r is Ok <==> !linking_defines(*old(l)).dom().contains((module@, name@)),
        linking_defines(*final(l)) == if r is Ok {
            linking_defines(*old(l)).insert((module@, name@), HostFn::RegisterLen)
        } else {
            linking_defines(*old(l))
        },
        linking_module(*final(l)) == linking_module(*old(l)),
        linking_input(*final(l)) == linking_input(*old(l)),
        linking_registers(*final(l)) == linking_registers(*old(l)),
        linking_logs(*final(l)) == linking_logs(*old(l)),
{
    let f = Func::wrap(&mut l.store, |caller: Caller<'_, HostState>, id: i64| host_register_len(&caller, id));
    l.linker.define(module, name, f).map(|_| ())
}

/// Relies on `Func::wrap` and `Linker::define`: makes the `log_utf8` call the
/// import `module`.`name`, or fails where that name is already defined.
#[verifier::external_body]
pub(crate) fn define_log_utf8(l: &mut Linking, module: &str, name: &str) -> (r: Result<(), LinkerError>)
    ensures
        r is Ok <==> !linking_defines(*old(l)).dom().contains((module@, name@)),
        linking_defines(*final(l)) == if r is Ok {
            linking_defines(*old(l)).insert((module@, name@), HostFn::LogUtf8)
        } else {
            linking_defines(*old(l))
        },
        linking_module(*final(l)) == linking_module(*old(l)),
        linking_input(*final(l)) == linking_input(*old(l)),
        linking_registers(*final(l)) == linking_registers(*old(l)),
        linking_logs(*final(l)) == linking_logs(*old(l)),
{
    let f = Func::wrap(&mut l.store, |mut caller: Caller<'_, HostState>, len: i64, ptr: i64| {
        host_log_utf8(&mut caller, len, ptr)
    });
    l.linker.define(module, name, f).map(|_| ())
}

/// Relies on `Linker::instantiate`, `InstancePre::start`,
/// `Instance::get_typed_func`, `TypedFunc::call` and `Store::into_data`:
/// instantiates and starts the module, runs its export `entry` (a function
/// that takes and returns nothing) and hands back the host state, or the error
/// of the first step that failed.
#[verifier::external_body]
pub(crate) fn run_module(l: Linking, entry: &str) -> (r: Result<HostState, InvocationError>)
    ensures
        ({
            let (w, i) = (linking_module(l), linking_defines(l));
            let (inp, regs, logs) = (linking_input(l), linking_registers(l), linking_logs(l));
            match r {
                Ok(s) => instantiates(w, i) && starts(w, i, inp, regs, logs) && has_entry(w, entry@)
                    && entry_run(w, i, entry@, inp, regs, logs) == Some((s.input@, s.registers@, s.logged())),
                Err(InvocationError::Instantiate(_)) => !instantiates(w, i),
                Err(InvocationError::Start(_)) => instantiates(w, i) && !starts(w, i, inp, regs, logs),
                Err(InvocationError::EntryPoint(_)) => instantiates(w, i) && starts(w, i, inp, regs, logs)
                    && !has_entry(w, entry@),
                Err(InvocationError::Trap(_)) => instantiates(w, i) && starts(w, i, inp, regs, logs) && has_entry(
                    w,
                    entry@,
                ) && entry_run(w, i, entry@, inp, regs, logs) is None,
                Err(_) => false,
            }
        }),
{
    let Linking { mut store, linker, module } = l;
    let pre = linker.instantiate(&mut store, &module).map_err(InvocationError::Instantiate)?;
    let instance = pre.start(&mut store).map_err(InvocationError::Start)?;
    let func = instance.get_typed_func::<(), ()>(&store, entry).map_err(InvocationError::EntryPoint)?;
    func.call(&mut store, ()).map_err(InvocationError::Trap)?;
    Ok(store.into_data())
}

} // verus!
