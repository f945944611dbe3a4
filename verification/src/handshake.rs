//! The handshake counter: the request ledger between the consumer and the
//! producer of a generator.

use vstd::prelude::*;

verus! {

/// The request ledger shared by the two sides of a generator. Its value is the
/// number of pull requests the consumer has registered that no emit has
/// consumed yet. The thread-backed deployment keeps it in a shared atomic
/// word, mutated only by atomic increment, decrement and load; the operations
/// here carry the contracts of those accesses.
pub struct HandshakeCounter {
    value: u64,
}

impl HandshakeCounter {
    /// The number of outstanding, unfulfilled pull requests.
    pub closed spec fn pending(&self) -> u64 {
        self.value
    }

    /// A fresh ledger: no pull has been requested yet.
    pub fn new() -> (counter: HandshakeCounter)
        ensures
            counter.pending() == 0,
    {
        HandshakeCounter { value: 0 }
    }

    /// The consumer registers one pull request: the atomic increment performed
    /// at the start of every pull that reaches the channel.
    pub fn register(&mut self)
        requires
            old(self).pending() < u64::MAX,
        ensures
            final(self).pending() == old(self).pending() + 1,
    {
        self.value = self.value + 1;
    }

    /// The producer's observation of the ledger: the atomic load inside its
    /// spin, which exits once the observed value is non-zero.
    pub fn load(&self) -> (pending: u64)
        ensures
            pending == self.pending(),
    {
        self.value
    }

    /// The producer consumes exactly one previously registered pull request:
    /// the atomic decrement it performs after observing the ledger non-zero
    /// and before sending a value.
    pub fn consume(&mut self)
        requires
            old(self).pending() >= 1,
        ensures
            final(self).pending() == old(self).pending() - 1,
    {
        self.value = self.value - 1;
    }
}

} // verus!
