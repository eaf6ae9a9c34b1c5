//! The guest program the embedding contract is measured with, written against
//! the register interface of the host state: it reads its loop limit from its
//! input, runs the kernel and logs how many iterations ran.
use vstd::prelude::*;
use crate::host::{HostState, INPUT_REGISTER};
use crate::kernel;
use crate::payload::{fields_of, from_le_bytes, le_bytes, le_value, payload_of, law_payload_round_trip};

verus! {

/// The decimal digits of `n`, as ASCII bytes.
pub open spec fn decimal(n: nat) -> Seq<u8>
    decreases n,
{
    if n < 10 {
        seq![(48 + n) as u8]
    } else {
        decimal(n / 10).push((48 + n % 10) as u8)
    }
}

/// The log line `Done {n} iterations!`, as ASCII bytes.
pub open spec fn done_line(n: nat) -> Seq<u8> {
    seq![68, 111, 110, 101, 32] + decimal(n) + seq![
        32,
        105,
        116,
        101,
        114,
        97,
        116,
        105,
        111,
        110,
        115,
        33,
    ]
}

/// What the guest logs when its input is `input`: the line for the loop
/// limit the input encodes, where the input is four bytes long.
pub open spec fn guest_log(input: Seq<u8>) -> Option<Seq<u8>> {
    if input.len() == 4 {
        Some(done_line(le_value(input) as nat))
    } else {
        None
    }
}

/// Why the guest stopped early.
#[derive(Clone, Copy, Debug, PartialEq, Eq)]
pub enum GuestFault {
    /// The guest's input is not exactly four bytes long.
    UnexpectedInput,
}

/// The decimal digits of `n`, as ASCII bytes.
pub fn decimal_bytes(n: u32) -> (r: Vec<u8>)
    ensures
        r@ == decimal(n as nat),
    decreases n,
{
    if n < 10 {
        vec![48u8 + n as u8]
    } else {
        let mut r = decimal_bytes(n / 10);
        r.push(48u8 + (n % 10) as u8);
        r
    }
}

/// The log line `Done {n} iterations!`.
pub fn done_message(n: u32) -> (r: Vec<u8>)
    ensures
        r@ == done_line(n as nat),
{
    let mut r: Vec<u8> = vec![68, 111, 110, 101, 32];
    let digits = decimal_bytes(n);
    let mut i: usize = 0;
    let ghost head = r@;
    while i < digits.len()
        invariant
            i <= digits@.len(),
            r@ == head + digits@.subrange(0, i as int),
        decreases digits@.len() - i,
    {
        r.push(digits[i]);
        i = i + 1;
        assert(r@ =~= head + digits@.subrange(0, i as int));
    }
    assert(digits@.subrange(0, digits@.len() as int) =~= digits@);
    let tail: Vec<u8> = vec![32, 105, 116, 101, 114, 97, 116, 105, 111, 110, 115, 33];
    let ghost mid = r@;
    let mut i: usize = 0;
    while i < tail.len()
        invariant
            i <= tail@.len(),
            r@ == mid + tail@.subrange(0, i as int),
        decreases tail@.len() - i,
    {
        r.push(tail[i]);
        i = i + 1;
        assert(r@ =~= mid + tail@.subrange(0, i as int));
    }
    assert(tail@.subrange(0, tail@.len() as int) =~= tail@);
    assert(r@ =~= done_line(n as nat));
    r
}

/// The guest's entry point, run against `host`: places its input in
/// `INPUT_REGISTER`, checks that it is four bytes, reads the loop limit from
/// them, runs the kernel and logs `Done {n} iterations!` with the number of
/// iterations that ran.
pub fn cpu_ram_soak(host: &mut HostState) -> (r: Result<(), GuestFault>)
    ensures
        final(host).input@ == old(host).input@,
        final(host).register(INPUT_REGISTER) == old(host).input@,
        match guest_log(old(host).input@) {
            Some(line) => r is Ok && final(host).logged() == old(host).logged().push(line),
            None => r == Err::<(), GuestFault>(GuestFault::UnexpectedInput) && final(host).logged()
                == old(host).logged(),
        },
{
    host.input(INPUT_REGISTER);
    if host.register_len(INPUT_REGISTER) != 4 {
        return Err(GuestFault::UnexpectedInput);
    }
    let loop_limit_bytes = host.get_register_data(INPUT_REGISTER);
    let loop_limit = from_le_bytes(loop_limit_bytes.as_slice());
    let counter = kernel::cpu_ram_soak(loop_limit);
    let message = done_message(counter);
    host.log_utf8(message);
    Ok(())
}

/// For a payload built from loop limit `l` and non-empty bytecode, the input
/// the guest is given is the loop-limit field, and on that input the guest
/// logs exactly `Done {l} iterations!`.
pub proof fn law_invocation_logs_loop_limit(l: u32, wasm: Seq<u8>)
    requires
        wasm.len() >= 1,
    ensures
        fields_of(payload_of(l, wasm)) == Some((le_bytes(l), wasm)),
        guest_log(le_bytes(l)) == Some(done_line(l as nat)),
{
    law_payload_round_trip(l, wasm);
}

} // verus!
