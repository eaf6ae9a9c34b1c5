//! The embedding contract's own input: a little-endian `u32` loop limit
//! followed by the guest's bytecode.
use vstd::prelude::*;

verus! {

/// Width of the loop-limit field at the start of a payload.
pub const LOOP_LIMIT_LEN: usize = 4;

/// The shortest payload accepted: the loop-limit field and at least one byte
/// of bytecode.
pub const MIN_PAYLOAD_LEN: usize = 5;

/// The four little-endian bytes of `n`.
pub open spec fn le_bytes(n: u32) -> Seq<u8> {
    seq![
        (n % 256) as u8,
        (n / 256 % 256) as u8,
        (n / 65536 % 256) as u8,
        (n / 16777216) as u8,
    ]
}

/// The number that four little-endian bytes stand for.
pub open spec fn le_value(b: Seq<u8>) -> int {
    b[0] + 256 * b[1] + 65536 * b[2] + 16777216 * b[3]
}

/// A payload that carries `loop_limit` and `wasm`.
pub open spec fn payload_of(loop_limit: u32, wasm: Seq<u8>) -> Seq<u8> {
    le_bytes(loop_limit) + wasm
}

/// The loop-limit field and the bytecode of `p`, where `p` is long enough.
pub open spec fn fields_of(p: Seq<u8>) -> Option<(Seq<u8>, Seq<u8>)> {
    if p.len() >= MIN_PAYLOAD_LEN {
        Some((p.subrange(0, LOOP_LIMIT_LEN as int), p.subrange(LOOP_LIMIT_LEN as int, p.len() as int)))
    } else {
        None
    }
}

/// Reading the bytes of a number back gives the number.
pub proof fn lemma_le_round_trip(n: u32)
    ensures
        le_value(le_bytes(n)) == n,
{
    let b = le_bytes(n);
    assert(b[0] == n % 256);
    assert(b[1] == n / 256 % 256);
    assert(b[2] == n / 65536 % 256);
    assert(b[3] == n / 16777216);
    assert(n == n % 256 + 256 * (n / 256 % 256) + 65536 * (n / 65536 % 256) + 16777216 * (n / 16777216))
        by (nonlinear_arith);
}

/// The four little-endian bytes of `n`.
pub fn to_le_bytes(n: u32) -> (r: Vec<u8>)
    ensures
        r@ == le_bytes(n),
{
    let r = vec![(n % 256) as u8, (n / 256 % 256) as u8, (n / 65536 % 256) as u8, (n / 16777216) as u8];
    assert(r@ =~= le_bytes(n));
    r
}

/// The number that the four little-endian bytes `b` stand for.
pub fn from_le_bytes(b: &[u8]) -> (r: u32)
    requires
        b@.len() == 4,
    ensures
        r as int == le_value(b@),
{
    b[0] as u32 + 256 * (b[1] as u32) + 65536 * (b[2] as u32) + 16777216 * (b[3] as u32)
}

/// The payload that asks for `loop_limit` iterations of the guest `wasm`.
pub fn encode_payload(loop_limit: u32, wasm: &[u8]) -> (r: Vec<u8>)
    requires
        wasm@.len() + 4 <= usize::MAX,
    ensures
        r@ == payload_of(loop_limit, wasm@),
{
    let mut r = to_le_bytes(loop_limit);
    let ghost head = r@;
    let mut i: usize = 0;
    while i < wasm.len()
        invariant
            i <= wasm@.len(),
            head == le_bytes(loop_limit),
            r@ == head + wasm@.subrange(0, i as int),
        decreases wasm@.len() - i,
    {
        r.push(wasm[i]);
        i = i + 1;
        assert(r@ =~= head + wasm@.subrange(0, i as int));
    }
    assert(wasm@.subrange(0, wasm@.len() as int) =~= wasm@);
    r
}

/// Splits `payload` into its loop-limit field and its bytecode; `None` where it
/// is shorter than `MIN_PAYLOAD_LEN`.
pub fn split_payload(payload: &[u8]) -> (r: Option<(Vec<u8>, Vec<u8>)>)
    ensures
        match (r, fields_of(payload@)) {
            (Some((head, wasm)), Some((h, w))) => head@ == h && wasm@ == w,
            (None, None) => true,
            _ => false,
        },
{
    if payload.len() < MIN_PAYLOAD_LEN {
        return None;
    }
    let mut head: Vec<u8> = Vec::new();
    let mut wasm: Vec<u8> = Vec::new();
    let mut i: usize = 0;
    while i < payload.len()
        invariant
            i <= payload@.len(),
            payload@.len() >= MIN_PAYLOAD_LEN,
            head@ == payload@.subrange(0, if i < LOOP_LIMIT_LEN { i as int } else { LOOP_LIMIT_LEN as int }),
            wasm@ == (if i < LOOP_LIMIT_LEN { Seq::<u8>::empty() } else { payload@.subrange(LOOP_LIMIT_LEN as int, i as int) }),
        decreases payload@.len() - i,
    {
        if i < LOOP_LIMIT_LEN {
            head.push(payload[i]);
        } else {
            wasm.push(payload[i]);
        }
        i = i + 1;
        assert(head@ =~= payload@.subrange(0, if i < LOOP_LIMIT_LEN { i as int } else { LOOP_LIMIT_LEN as int }));
        assert(wasm@ =~= (if i < LOOP_LIMIT_LEN { Seq::<u8>::empty() } else { payload@.subrange(LOOP_LIMIT_LEN as int, i as int) }));
    }
    Some((head, wasm))
}

/// Splitting a payload built from a loop limit and non-empty bytecode gives
/// back the four bytes of the loop limit and the bytecode, and those four
/// bytes read back as the loop limit.
pub proof fn law_payload_round_trip(loop_limit: u32, wasm: Seq<u8>)
    requires
        wasm.len() >= 1,
    ensures
        fields_of(payload_of(loop_limit, wasm)) == Some((le_bytes(loop_limit), wasm)),
        le_value(le_bytes(loop_limit)) == loop_limit,
{
    let p = payload_of(loop_limit, wasm);
    assert(p.subrange(0, 4) =~= le_bytes(loop_limit));
    assert(p.subrange(4, p.len() as int) =~= wasm);
    lemma_le_round_trip(loop_limit);
}

} // verus!
