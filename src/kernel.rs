//! The compute kernel that is measured: a busy loop of swaps over a buffer.
use vstd::prelude::*;

verus! {

/// Size of the kernel's scratch buffer.
pub const SOAK_BUFFER_LEN: usize = 102400;

/// Runs `loop_limit` iterations of the kernel and returns how many ran.
pub fn cpu_ram_soak(loop_limit: u32) -> (r: u32)
    ensures
        r == loop_limit,
{
    let mut buf: Vec<u8> = vec![0u8; SOAK_BUFFER_LEN];
    let len = buf.len() as u64;
    let mut counter: u32 = 0;
    let mut i: u64 = 0;
    while i < loop_limit as u64
        invariant
            buf@.len() == SOAK_BUFFER_LEN,
            len == SOAK_BUFFER_LEN as u64,
            i <= loop_limit,
            counter == i,
        decreases loop_limit - i,
    {
        let j = ((i * 7 + len / 2) % len) as usize;
        let k = ((i * 3) % len) as usize;
        let tmp = buf[k];
        let v = buf[j];
        buf.set(k, v);
        buf.set(j, tmp);
        counter = counter + 1;
        i = i + 1;
    }
    counter
}

} // verus!
