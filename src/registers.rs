//! An in-memory store of byte buffers keyed by caller-chosen register identifiers.
use std::collections::HashMap;
use vstd::prelude::*;

verus! {

broadcast use vstd::std_specs::hash::group_hash_axioms;

/// The contents of register `id` in `m`: the stored bytes, or nothing when the
/// register was never written.
pub open spec fn register_contents(m: Map<u64, Seq<u8>>, id: u64) -> Seq<u8> {
    if m.contains_key(id) {
        m[id]
    } else {
        Seq::empty()
    }
}

/// Virtual registers: each identifier names one owned byte buffer.
pub struct RegisterStore {
    map: HashMap<u64, Vec<u8>>,
}

impl View for RegisterStore {
    type V = Map<u64, Seq<u8>>;

    closed spec fn view(&self) -> Map<u64, Seq<u8>> {
        self.map@.map_values(|v: Vec<u8>| v@)
    }
}

impl RegisterStore {
    /// A store in which no register has been written.
    pub fn new() -> (r: RegisterStore)
        ensures
            r@ == Map::<u64, Seq<u8>>::empty(),
    {
        let r = RegisterStore { map: HashMap::new() };
        assert(r@ =~= Map::<u64, Seq<u8>>::empty());
        r
    }

    /// Replaces whatever register `id` held with `bytes`.
    pub fn set(&mut self, id: u64, bytes: Vec<u8>)
        ensures
            final(self)@ == old(self)@.insert(id, bytes@),
    {
        let ghost b = bytes@;
        self.map.insert(id, bytes);
        assert(self@ =~= old(self)@.insert(id, b));
    }

    /// A copy of the bytes in register `id`; empty where it was never written.
    pub fn get(&self, id: u64) -> (r: Vec<u8>)
        ensures
            r@ == register_contents(self@, id),
    {
        match self.map.get(&id) {
            Some(data) => data.clone(),
            None => Vec::new(),
        }
    }

    /// The number of bytes in register `id`; `0` where it was never written.
    pub fn len(&self, id: u64) -> (r: usize)
        ensures
            r == register_contents(self@, id).len(),
    {
        match self.map.get(&id) {
            Some(data) => data.len(),
            None => 0,
        }
    }
}

/// A register that was never written reads back as empty: no bytes, length
/// zero.
pub proof fn law_unwritten_register_is_empty(m: Map<u64, Seq<u8>>, id: u64)
    requires
        !m.contains_key(id),
    ensures
        register_contents(m, id) == Seq::<u8>::empty(),
        register_contents(m, id).len() == 0,
{
}

/// Writing `b` to register `id` and reading `id` back gives exactly `b`,
/// whatever its length, zero included.
pub proof fn law_write_then_read(m: Map<u64, Seq<u8>>, id: u64, b: Seq<u8>)
    ensures
        register_contents(m.insert(id, b), id) == b,
        register_contents(m.insert(id, b), id).len() == b.len(),
{
}

/// Writing one register leaves every other register as it was.
pub proof fn law_write_leaves_others(m: Map<u64, Seq<u8>>, id: u64, b: Seq<u8>, other: u64)
    requires
        other != id,
    ensures
        register_contents(m.insert(id, b), other) == register_contents(m, other),
{
}

} // verus!
