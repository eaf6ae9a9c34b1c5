//! The four host functions the guest imports, each run against the host state
//! of the store and the guest's own linear memory.
//!
//! `input`, `read_register` and `register_len` end inside the host state;
//! `log_utf8` copies the message out of guest memory and records it for the
//! outer sandbox. A guest range outside its memory becomes a trap.
use vstd::prelude::*;
use wasmi::Caller;
use crate::engine::{
    caller_input, caller_logs, caller_registers, guest_memory, guest_memory_len, guest_memory_read,
    guest_memory_write, host_state, replace_host_state, trap,
};
use crate::host::HostState;
use crate::registers::register_contents;

verus! {

/// The name under which the guest exports its linear memory.
pub const MEMORY_EXPORT: &'static str = "memory";

/// Where a guest range of `len` bytes starting at `ptr` begins in host terms:
/// the offset, where `ptr` is not negative and the range's end is a `usize`.
pub open spec fn guest_offset_of(ptr: i64, len: int) -> Option<usize> {
    if 0 <= ptr && ptr + len <= usize::MAX {
        Some(ptr as usize)
    } else {
        None
    }
}

/// Whether `len` bytes from `ptr` lie inside guest memory `m`.
pub open spec fn in_memory(m: Option<Seq<u8>>, ptr: int, len: int) -> bool {
    &&& m is Some
    &&& 0 <= ptr
    &&& 0 <= len
    &&& ptr + len <= m->Some_0.len()
}

/// The offset at which a guest range of `len` bytes from `ptr` begins.
pub fn guest_offset(ptr: i64, len: usize) -> (r: Option<usize>)
    ensures
        r == guest_offset_of(ptr, len as int),
{
    if ptr < 0 {
        None
    } else if ptr as u64 > usize::MAX as u64 - len as u64 {
        None
    } else {
        Some(ptr as usize)
    }
}

/// `input(register_id)`: places the invocation's input in the register.
pub fn host_input(caller: &mut Caller<'_, HostState>, register_id: i64)
    ensures
        caller_registers(*final(caller)) == caller_registers(*old(caller)).insert(
            register_id as u64,
            caller_input(*old(caller)),
        ),
        caller_input(*final(caller)) == caller_input(*old(caller)),
        caller_logs(*final(caller)) == caller_logs(*old(caller)),
        forall|n: Seq<char>| guest_memory(*final(caller), n) == guest_memory(*old(caller), n),
{
    let mut state = replace_host_state(caller, HostState::new(Vec::new()));
    state.input(register_id as u64);
    let _ = replace_host_state(caller, state);
}

/// `register_len(register_id)`: the length of the register, `0` where it was
/// never written.
pub fn host_register_len(caller: &Caller<'_, HostState>, register_id: i64) -> (r: i64)
    ensures
        r == register_contents(caller_registers(*caller), register_id as u64).len() as i64,
{
    let state = host_state(caller);
    state.register_len(register_id as u64) as i64
}

/// `read_register(register_id, ptr)`: writes the register's bytes into guest
/// memory from `ptr`. Traps, changing nothing, where that range is not guest
/// memory.
pub fn host_read_register(caller: &mut Caller<'_, HostState>, register_id: i64, ptr: i64) -> (r: Result<
    (),
    wasmi::core::Trap,
>)
    ensures
        ({
            let data = register_contents(caller_registers(*old(caller)), register_id as u64);
            let m = guest_memory(*old(caller), MEMORY_EXPORT@);
            &&& r is Ok <==> in_memory(m, ptr as int, data.len() as int)
            &&& guest_memory(*final(caller), MEMORY_EXPORT@) == if r is Ok {
                Some(m->Some_0.subrange(0, ptr as int) + data + m->Some_0.subrange(ptr + data.len(), m->Some_0.len() as int))
            } else {
                m
            }
        }),
        caller_input(*final(caller)) == caller_input(*old(caller)),
        caller_registers(*final(caller)) == caller_registers(*old(caller)),
        caller_logs(*final(caller)) == caller_logs(*old(caller)),
{
    if guest_memory_len(caller, MEMORY_EXPORT).is_none() {
        return Err(trap("guest does not export its memory"));
    }
    let data = host_state(caller).get_register_data(register_id as u64);
    let offset = match guest_offset(ptr, data.len()) {
        Some(offset) => offset,
        None => return Err(trap("register data does not fit in guest memory")),
    };
    match guest_memory_write(caller, MEMORY_EXPORT, offset, data.as_slice()) {
        None => Err(trap("guest does not export its memory")),
        Some(Ok(())) => Ok(()),
        Some(Err(_)) => Err(trap("register data does not fit in guest memory")),
    }
}

/// `log_utf8(len, ptr)`: copies `len` bytes of guest memory from `ptr` and
/// records them, unchanged, as a log line for the outer sandbox. Traps,
/// changing nothing, where that range is not guest memory.
pub fn host_log_utf8(caller: &mut Caller<'_, HostState>, len: i64, ptr: i64) -> (r: Result<
    (),
    wasmi::core::Trap,
>)
    ensures
        ({
            let m = guest_memory(*old(caller), MEMORY_EXPORT@);
            &&& r is Ok <==> in_memory(m, ptr as int, len as int)
            &&& caller_logs(*final(caller)) == if r is Ok {
                caller_logs(*old(caller)).push(m->Some_0.subrange(ptr as int, ptr + len))
            } else {
                caller_logs(*old(caller))
            }
        }),
        caller_input(*final(caller)) == caller_input(*old(caller)),
        caller_registers(*final(caller)) == caller_registers(*old(caller)),
        forall|n: Seq<char>| guest_memory(*final(caller), n) == guest_memory(*old(caller), n),
{
    let size = match guest_memory_len(caller, MEMORY_EXPORT) {
        Some(size) => size,
        None => return Err(trap("guest does not export its memory")),
    };
    if len < 0 || ptr < 0 || len as u64 > size as u64 || ptr as u64 > size as u64 - len as u64 {
        return Err(trap("log message lies outside guest memory"));
    }
    let n = len as usize;
    let offset = ptr as usize;
    let message = match guest_memory_read(caller, MEMORY_EXPORT, offset, n) {
        Some(Ok(message)) => message,
        _ => return Err(trap("log message lies outside guest memory")),
    };
    let mut state = replace_host_state(caller, HostState::new(Vec::new()));
    state.log_utf8(message);
    let _ = replace_host_state(caller, state);
    Ok(())
}

} // verus!
