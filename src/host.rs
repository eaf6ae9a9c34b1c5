//! The per-invocation host state and the register half of the host interface.
use vstd::prelude::*;
use crate::registers::{register_contents, RegisterStore};

verus! {

/// The register under which the outer sandbox and the guest both expect the
/// invocation's input to be placed.
pub const INPUT_REGISTER: u64 = 0;

/// State that exists for the duration of one call of the guest's entry point.
///
/// A fresh value is built for each invocation and dropped when it ends, so
/// nothing written by one guest call is seen by the next.
pub struct HostState {
    /// The bytes the guest sees as its own input.
    pub input: Vec<u8>,
    /// The guest's virtual registers.
    pub registers: RegisterStore,
    /// Log lines the guest asked to have forwarded to the outer sandbox, in
    /// the order in which it asked.
    pub logs: Vec<Vec<u8>>,
}

/// The log lines `logs` as byte sequences.
pub open spec fn log_lines(logs: Seq<Vec<u8>>) -> Seq<Seq<u8>> {
    logs.map_values(|l: Vec<u8>| l@)
}

impl HostState {
    /// What the guest reads back from register `id`.
    pub open spec fn register(&self, id: u64) -> Seq<u8> {
        register_contents(self.registers@, id)
    }

    /// Log lines forwarded so far.
    pub open spec fn logged(&self) -> Seq<Seq<u8>> {
        log_lines(self.logs@)
    }

    /// A host state whose guest input is `input`, with no register written
    /// and nothing logged.
    pub fn new(input: Vec<u8>) -> (r: HostState)
        ensures
            r.input@ == input@,
            r.registers@ == Map::<u64, Seq<u8>>::empty(),
            r.logs@.len() == 0,
    {
        HostState { input, registers: RegisterStore::new(), logs: Vec::new() }
    }

    /// The bytes of register `register_id`, empty when it was never written.
    pub fn get_register_data(&self, register_id: u64) -> (r: Vec<u8>)
        ensures
            r@ == self.register(register_id),
    {
        self.registers.get(register_id)
    }

    /// The `input` call: copies the guest's input into register `register_id`.
    pub fn input(&mut self, register_id: u64)
        ensures
            final(self).registers@ == old(self).registers@.insert(register_id, old(self).input@),
            final(self).input@ == old(self).input@,
            final(self).logs@ == old(self).logs@,
    {
        let data = self.input.clone();
        self.registers.set(register_id, data);
    }

    /// The `register_len` call: the length of register `register_id`, `0` when
    /// it was never written.
    pub fn register_len(&self, register_id: u64) -> (r: u64)
        ensures
            r as int == self.register(register_id).len(),
    {
        self.registers.len(register_id) as u64
    }

    /// Records `message` as a log line to forward to the outer sandbox.
    pub fn log_utf8(&mut self, message: Vec<u8>)
        ensures
            final(self).logged() == old(self).logged().push(message@),
            final(self).input@ == old(self).input@,
            final(self).registers@ == old(self).registers@,
    {
        let ghost m = message@;
        self.logs.push(message);
        assert(final(self).logged() =~= old(self).logged().push(m));
    }
}

/// The registers after the `input` call was made once for each identifier of
/// `ids`, in order, with input `input`.
pub open spec fn after_inputs(m: Map<u64, Seq<u8>>, ids: Seq<u64>, input: Seq<u8>) -> Map<u64, Seq<u8>>
    decreases ids.len(),
{
    if ids.len() == 0 {
        m
    } else {
        after_inputs(m, ids.drop_last(), input).insert(ids.last(), input)
    }
}

/// `input(id)` followed by reading register `id` gives exactly the
/// invocation's input, whatever registers were written before and however
/// many `input` calls for other identifiers come in between.
pub proof fn law_input_then_read(
    m: Map<u64, Seq<u8>>,
    input: Seq<u8>,
    id: u64,
    others: Seq<u64>,
)
    requires
        !others.contains(id),
    ensures
        register_contents(after_inputs(m.insert(id, input), others, input), id) == input,
    decreases others.len(),
{
    if others.len() > 0 {
        assert(!others.drop_last().contains(id)) by {
            if others.drop_last().contains(id) {
                let k = choose|k: int| 0 <= k < others.drop_last().len() && others.drop_last()[k] == id;
                assert(others[k] == id);
            }
        }
        law_input_then_read(m, input, id, others.drop_last());
        assert(others.last() != id) by {
            assert(others[others.len() - 1] == others.last());
        }
    }
}

} // verus!
