//! Bootstrap of the embedded interpreter and dispatch of the guest's entry
//! point, for one invocation of the embedding contract.
use vstd::prelude::*;
use crate::engine::{
    define_input, define_log_utf8, define_read_register, define_register_len, entry_run, has_entry, instantiates,
    linking_defines, linking_input, linking_logs, linking_module, linking_registers, load, module_valid,
    run_module, starts, HostFn, Linking,
};
use crate::host::{log_lines, HostState};
use crate::payload::{fields_of, split_payload};

verus! {

/// The guest's entry point: it takes no arguments and returns nothing.
pub const ENTRY_POINT: &'static str = "cpu_ram_soak";

/// Why an invocation ended without running the guest to completion.
pub enum InvocationError {
    /// The payload holds no byte of bytecode after the loop-limit field.
    PayloadTooShort,
    /// The bytecode is not a valid module.
    Compile(wasmi::Error),
    /// The module's imports could not be resolved.
    Instantiate(wasmi::Error),
    /// The module's start function trapped.
    Start(wasmi::Error),
    /// The module exports no entry point of the expected name and type.
    EntryPoint(wasmi::Error),
    /// The guest trapped while running its entry point.
    Trap(wasmi::core::Trap),
}

/// Which host functions the guest may import.
#[derive(Clone, Copy, Debug, PartialEq, Eq)]
pub struct Trampolines {
    /// `read_register` and `register_len`.
    pub registers: bool,
    /// `input`.
    pub input: bool,
    /// `log_utf8`.
    pub log: bool,
}

impl Trampolines {
    /// Every host function bound.
    pub open spec fn all_spec() -> Trampolines {
        Trampolines { registers: true, input: true, log: true }
    }

    /// Every host function bound.
    pub fn all() -> (r: Trampolines)
        ensures
            r == Trampolines::all_spec(),
    {
        Trampolines { registers: true, input: true, log: true }
    }
}

/// The host functions that `bound` selects, each under `env` and its name
/// in the host interface.
pub open spec fn bound_imports(bound: Trampolines) -> Map<(Seq<char>, Seq<char>), HostFn> {
    let m0 = Map::<(Seq<char>, Seq<char>), HostFn>::empty();
    let m1 = if bound.input { m0.insert(("env"@, "input"@), HostFn::Input) } else { m0 };
    let m2 = if bound.log { m1.insert(("env"@, "log_utf8"@), HostFn::LogUtf8) } else { m1 };
    if bound.registers {
        m2.insert(("env"@, "read_register"@), HostFn::ReadRegister).insert(
            ("env"@, "register_len"@),
            HostFn::RegisterLen,
        )
    } else {
        m2
    }
}

/// The host view of a host state: its input, registers and log lines.
pub open spec fn host_view(s: HostState) -> (Seq<u8>, Map<u64, Seq<u8>>, Seq<Seq<u8>>) {
    (s.input@, s.registers@, s.logged())
}

/// Whether `r` is how running module `w`, with host functions `i`, from the
/// host view (`inp`, `regs`, `logs`) ends: the host state the entry point
/// left, or the error of the first step that fails.
pub open spec fn run_agrees(
    r: Result<HostState, InvocationError>,
    w: Seq<u8>,
    i: Map<(Seq<char>, Seq<char>), HostFn>,
    inp: Seq<u8>,
    regs: Map<u64, Seq<u8>>,
    logs: Seq<Seq<u8>>,
) -> bool {
    let n = ENTRY_POINT@;
    match r {
        Ok(s) => instantiates(w, i) && starts(w, i, inp, regs, logs) && has_entry(w, n) && entry_run(
            w,
            i,
            n,
            inp,
            regs,
            logs,
        ) == Some(host_view(s)),
        Err(InvocationError::Instantiate(_)) => !instantiates(w, i),
        Err(InvocationError::Start(_)) => instantiates(w, i) && !starts(w, i, inp, regs, logs),
        Err(InvocationError::EntryPoint(_)) => instantiates(w, i) && starts(w, i, inp, regs, logs) && !has_entry(w, n),
        Err(InvocationError::Trap(_)) => instantiates(w, i) && starts(w, i, inp, regs, logs) && has_entry(w, n)
            && entry_run(w, i, n, inp, regs, logs) is None,
        Err(_) => false,
    }
}

/// The end of one invocation whose guest input is `input` and whose bytecode
/// is `wasm`: the guest starts with no register written and nothing logged,
/// with every host function bound.
pub open spec fn invocation_agrees(r: Result<Vec<Vec<u8>>, InvocationError>, input: Seq<u8>, wasm: Seq<u8>) -> bool {
    let i = bound_imports(Trampolines::all_spec());
    let regs = Map::<u64, Seq<u8>>::empty();
    let logs = Seq::<Seq<u8>>::empty();
    let n = ENTRY_POINT@;
    match r {
        Ok(lines) => instantiates(wasm, i) && starts(wasm, i, input, regs, logs) && has_entry(wasm, n) && (
        entry_run(wasm, i, n, input, regs, logs) matches Some((_, _, l)) && l == log_lines(lines@)),
        Err(InvocationError::Instantiate(_)) => !instantiates(wasm, i),
        Err(InvocationError::Start(_)) => instantiates(wasm, i) && !starts(wasm, i, input, regs, logs),
        Err(InvocationError::EntryPoint(_)) => instantiates(wasm, i) && starts(wasm, i, input, regs, logs)
            && !has_entry(wasm, n),
        Err(InvocationError::Trap(_)) => instantiates(wasm, i) && starts(wasm, i, input, regs, logs) && has_entry(
            wasm,
            n,
        ) && entry_run(wasm, i, n, input, regs, logs) is None,
        Err(InvocationError::Compile(_)) => !module_valid(wasm),
        Err(InvocationError::PayloadTooShort) => false,
    }
}

/// Binds the host functions that `bound` selects as imports of `env`
/// in a linker that defines nothing yet; the host state is untouched.
pub fn bind_trampolines(l: &mut Linking, bound: Trampolines)
    requires
        linking_defines(*old(l)) == Map::<(Seq<char>, Seq<char>), HostFn>::empty(),
    ensures
        linking_defines(*final(l)) == bound_imports(bound),
        linking_module(*final(l)) == linking_module(*old(l)),
        linking_input(*final(l)) == linking_input(*old(l)),
        linking_registers(*final(l)) == linking_registers(*old(l)),
        linking_logs(*final(l)) == linking_logs(*old(l)),
{
    proof {
        reveal_strlit("env");
        reveal_strlit("input");
        reveal_strlit("log_utf8");
        reveal_strlit("read_register");
        reveal_strlit("register_len");
        assert("input"@.len() == 5 && "log_utf8"@.len() == 8);
        assert("read_register"@.len() == 13 && "register_len"@.len() == 12);
    }
    if bound.input {
        let _ = define_input(l, "env", "input");
    }
    if bound.log {
        assert(!linking_defines(*l).dom().contains(("env"@, "log_utf8"@)));
        let _ = define_log_utf8(l, "env", "log_utf8");
    }
    if bound.registers {
        assert(!linking_defines(*l).dom().contains(("env"@, "read_register"@)));
        let _ = define_read_register(l, "env", "read_register");
        assert(!linking_defines(*l).dom().contains(("env"@, "register_len"@)));
        let _ = define_register_len(l, "env", "register_len");
    }
    assert(linking_defines(*l) =~= bound_imports(bound));
}

/// Compiles `wasm` and binds the host functions that `bound` selects to a
/// store that owns `state`: the interpreter is then ready to instantiate.
pub fn prepare(wasm: &[u8], state: HostState, bound: Trampolines) -> (r: Result<Linking, InvocationError>)
    ensures
        r is Ok <==> module_valid(wasm@),
        r is Err ==> r->Err_0 is Compile,
        r is Ok ==> {
            &&& linking_defines(r->Ok_0) == bound_imports(bound)
            &&& linking_module(r->Ok_0) == wasm@
            &&& linking_input(r->Ok_0) == state.input@
            &&& linking_registers(r->Ok_0) == state.registers@
            &&& linking_logs(r->Ok_0) == state.logged()
        },
{
    let mut linking = match load(wasm, state) {
        Ok(linking) => linking,
        Err(e) => return Err(InvocationError::Compile(e)),
    };
    bind_trampolines(&mut linking, bound);
    Ok(linking)
}

/// Instantiates and starts the prepared module and calls its entry point.
/// Hands back the host state as the guest left it, or the error of the first
/// step that failed; the entry point runs only once every earlier step has
/// succeeded.
pub fn execute(linking: Linking) -> (r: Result<HostState, InvocationError>)
    ensures
        run_agrees(
            r,
            linking_module(linking),
            linking_defines(linking),
            linking_input(linking),
            linking_registers(linking),
            linking_logs(linking),
        ),
{
    run_module(linking, ENTRY_POINT)
}

/// Runs the guest `wasm` against `state` with the host functions that `bound`
/// selects: `prepare`, then `execute`.
pub fn run_guest(wasm: &[u8], state: HostState, bound: Trampolines) -> (r: Result<
    HostState,
    InvocationError,
>)
    ensures
        !module_valid(wasm@) ==> r is Err && r->Err_0 is Compile,
        module_valid(wasm@) ==> run_agrees(
            r,
            wasm@,
            bound_imports(bound),
            state.input@,
            state.registers@,
            state.logged(),
        ),
{
    let linking = prepare(wasm, state, bound)?;
    execute(linking)
}

/// The interpreter set up for one invocation on `payload`: the module is the
/// bytecode after the loop-limit field, the guest's input is the loop-limit
/// field, no register is written, nothing is logged, and every host function
/// is bound. A payload shorter than `MIN_PAYLOAD_LEN` is refused before any
/// interpreter engine exists.
pub fn prepare_invocation(payload: &[u8]) -> (r: Result<Linking, InvocationError>)
    ensures
        match fields_of(payload@) {
            None => r is Err && r->Err_0 is PayloadTooShort,
            Some((input, wasm)) => {
                &&& r is Ok <==> module_valid(wasm)
                &&& r is Err ==> r->Err_0 is Compile
                &&& r is Ok ==> {
                    &&& linking_input(r->Ok_0) == input
                    &&& linking_registers(r->Ok_0) == Map::<u64, Seq<u8>>::empty()
                    &&& linking_logs(r->Ok_0) == Seq::<Seq<u8>>::empty()
                    &&& linking_defines(r->Ok_0) == bound_imports(Trampolines::all_spec())
                    &&& linking_module(r->Ok_0) == wasm
                }
            },
        },
{
    let (loop_limit_bytes, wasm) = match split_payload(payload) {
        Some(fields) => fields,
        None => return Err(InvocationError::PayloadTooShort),
    };
    let state = HostState::new(loop_limit_bytes);
    proof {
        assert(state.logged() =~= Seq::<Seq<u8>>::empty());
    }
    prepare(wasm.as_slice(), state, Trampolines::all())
}

/// One invocation of the embedding contract on `payload`, set up as
/// `prepare_invocation` says. Returns the log lines the guest asked to forward
/// to the outer sandbox, in order, or the error of the first step that failed
/// (no line is returned then).
pub fn cpu_ram_soak(payload: &[u8]) -> (r: Result<Vec<Vec<u8>>, InvocationError>)
    ensures
        match fields_of(payload@) {
            None => r is Err && r->Err_0 is PayloadTooShort,
            Some((input, wasm)) => invocation_agrees(r, input, wasm),
        },
{
    let linking = prepare_invocation(payload)?;
    match execute(linking) {
        Ok(state) => Ok(state.logs),
        Err(e) => Err(e),
    }
}

} // verus!
