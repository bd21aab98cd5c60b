//! Identifiers that tell channels and circuits apart in log output.

use vstd::prelude::*;

verus! {

/// Identifier for a channel for logging purposes.
///
/// It should be unique: whoever hands out the numbers gives each one once.
#[derive(Debug, Clone, Copy, PartialEq, Eq, Structural)]
pub struct LogId {
    /// The number of the channel.
    id: usize,
}

impl LogId {
    /// The number of the channel.
    pub closed spec fn view(&self) -> usize {
        self.id
    }

    /// Construct the LogId of channel number `id`.
    pub fn new(id: usize) -> (r: Self)
        ensures
            r@ == id,
    {
        LogId { id }
    }

    /// The number of the channel.
    pub fn get(&self) -> (r: usize)
        ensures
            r == self@,
    {
        self.id
    }
}

/// Identifier for a circuit for logging purposes: the number of its channel,
/// and its own number on that channel.
#[derive(Debug, Clone, Copy, PartialEq, Eq, Structural)]
pub struct CircuitLogId {
    /// The number of the channel that the circuit runs on.
    pub chan: usize,
    /// The number of the circuit on that channel.
    pub circ: usize,
}

impl CircuitLogId {
    /// Construct the identifier of circuit `circ` on channel `chan`.
    pub fn new(chan: usize, circ: usize) -> (r: Self)
        ensures
            r == (CircuitLogId { chan, circ }),
    {
        CircuitLogId { chan, circ }
    }
}

/// Counter for allocating circuit log ids.
#[derive(Debug)]
pub struct CircLogIdContext {
    /// The number that the next circuit gets.
    next_circ_id: usize,
}

impl CircLogIdContext {
    /// The number that the next circuit gets.
    pub closed spec fn view(&self) -> usize {
        self.next_circ_id
    }

    /// Start counting circuits from 0.
    pub fn new() -> (r: Self)
        ensures
            r@ == 0,
    {
        CircLogIdContext { next_circ_id: 0 }
    }

    /// The number that the next circuit gets.
    pub fn peek(&self) -> (r: usize)
        ensures
            r == self@,
    {
        self.next_circ_id
    }

    /// Give the next circuit on the channel `logid` its identifier, and count
    /// one up. The counter must not have run out.
    pub fn next(&mut self, logid: LogId) -> (r: CircuitLogId)
        requires
            old(self)@ < usize::MAX,
        ensures
            r == (CircuitLogId { chan: logid@, circ: old(self)@ }),
            final(self)@ == old(self)@ + 1,
    {
        let circ_logid = self.next_circ_id;
        self.next_circ_id += 1;
        CircuitLogId::new(logid.id, circ_logid)
    }
}

} // verus!
