//! The rendezvous protocol: the handshake counter and the delivery channel
//! together, with the discipline that keeps the producer at most one value
//! ahead of the consumer's requests.

use vstd::prelude::*;

use crate::channel::DeliveryChannel;
use crate::handshake::HandshakeCounter;

verus! {

/// The two coupling points between the consumer and the producer of one
/// generator — the request ledger and the delivery channel — and nothing else:
/// no other state is shared between the two sides. The operations are the
/// protocol's steps; each side performs its own steps, in any order its
/// preconditions admit, and the one-item-ahead bound and the conservation of
/// values hold across every such interleaving.
pub struct Rendezvous<T> {
    counter: HandshakeCounter,
    channel: DeliveryChannel<T>,
}

impl<T> Rendezvous<T> {
    /// The number of registered pull requests no emit has consumed yet.
    pub closed spec fn requests(&self) -> u64 {
        self.counter.pending()
    }

    /// The values emitted but not yet received, oldest first.
    pub closed spec fn in_flight(&self) -> Seq<T> {
        self.channel.in_flight()
    }

    /// Whether the producer's sending half is still alive.
    pub closed spec fn is_open(&self) -> bool {
        self.channel.is_open()
    }

    /// Every value the producer has emitted, in emission order.
    pub closed spec fn emitted(&self) -> Seq<T> {
        self.channel.sent()
    }

    /// Every value the consumer has received, in reception order.
    pub closed spec fn delivered(&self) -> Seq<T> {
        self.channel.received()
    }

    /// The protocol invariant. The channel conserves values, and the producer
    /// is never more than one step ahead: an unconsumed pull request and an
    /// unreceived value never coexist, and there is at most one of either.
    pub open spec fn inv(&self) -> bool {
        &&& self.channel_wf()
        &&& self.requests() + self.in_flight().len() <= 1
    }

    /// Conservation inside the channel (exposed so that `inv` can be public
    /// while the fields stay private).
    pub closed spec fn channel_wf(&self) -> bool {
        self.channel.wf()
    }

    /// A fresh rendezvous: no request registered, nothing emitted, channel open.
    pub fn new() -> (rendezvous: Rendezvous<T>)
        ensures
            rendezvous.inv(),
            rendezvous.requests() == 0,
            rendezvous.in_flight() == Seq::<T>::empty(),
            rendezvous.is_open(),
            rendezvous.emitted() == Seq::<T>::empty(),
            rendezvous.delivered() == Seq::<T>::empty(),
    {
        Rendezvous { counter: HandshakeCounter::new(), channel: DeliveryChannel::new() }
    }

    /// The consumer registers one pull request. Under strict alternation the
    /// consumer only does so after its previous request was fulfilled and the
    /// value received, so the ledger is zero and the channel drained when it
    /// does; the ledger then reads one.
    pub fn register_pull(&mut self)
        requires
            old(self).inv(),
            old(self).requests() == 0,
            old(self).in_flight().len() == 0,
        ensures
            final(self).inv(),
            final(self).requests() == 1,
            final(self).in_flight() == old(self).in_flight(),
            final(self).is_open() == old(self).is_open(),
            final(self).emitted() == old(self).emitted(),
            final(self).delivered() == old(self).delivered(),
    {
        self.counter.register();
    }

    /// The exit test of the producer's spin: whether a pull request is
    /// outstanding. The producer repeatedly observes the ledger and yields its
    /// turn until this holds; only then does it proceed to emit.
    pub fn pull_request_pending(&self) -> (pending: bool)
        ensures
            pending == (self.requests() >= 1),
    {
        self.counter.load() != 0
    }

    /// The producer emits one value, after its spin has observed an
    /// outstanding pull request: it consumes exactly one registered request
    /// and sends the value. The emitted history grows by the value and nothing
    /// already delivered changes, whatever the consumer is doing meanwhile.
    pub fn emit(&mut self, value: T)
        requires
            old(self).inv(),
            old(self).requests() >= 1,
            old(self).is_open(),
        ensures
            final(self).inv(),
            final(self).requests() == old(self).requests() - 1,
            final(self).in_flight() == old(self).in_flight().push(value),
            final(self).is_open(),
            final(self).emitted() == old(self).emitted().push(value),
            final(self).delivered() == old(self).delivered(),
    {
        self.counter.consume();
        self.channel.send(value);
    }

    /// The producer's side ends: the computation body has returned, so the
    /// sending half is dropped and the channel closes for good.
    pub fn close(&mut self)
        requires
            old(self).inv(),
        ensures
            final(self).inv(),
            final(self).requests() == old(self).requests(),
            final(self).in_flight() == old(self).in_flight(),
            !final(self).is_open(),
            final(self).emitted() == old(self).emitted(),
            final(self).delivered() == old(self).delivered(),
    {
        self.channel.close();
    }

    /// The consumer's blocking receive, at the moment it completes: the oldest
    /// in-flight value, or the exhausted signal when the channel is closed and
    /// drained. The precondition states that the wait is over — a value has
    /// arrived or the producer is gone.
    pub fn receive(&mut self) -> (result: Option<T>)
        requires
            old(self).inv(),
            old(self).in_flight().len() > 0 || !old(self).is_open(),
        ensures
            final(self).inv(),
            final(self).requests() == old(self).requests(),
            final(self).is_open() == old(self).is_open(),
            final(self).emitted() == old(self).emitted(),
            old(self).in_flight().len() > 0 ==> {
                &&& result == Some(old(self).in_flight()[0])
                &&& final(self).in_flight() == old(self).in_flight().skip(1)
                &&& final(self).delivered() == old(self).delivered().push(
                    old(self).in_flight()[0],
                )
            },
            old(self).in_flight().len() == 0 ==> {
                &&& result is None
                &&& final(self).in_flight() == old(self).in_flight()
                &&& final(self).delivered() == old(self).delivered()
            },
    {
        self.channel.recv()
    }
}

/// No pull ever returns a value that was not emitted, and no emitted value is
/// skipped, duplicated or reordered on its way to the consumer: in every state
/// the protocol can reach — whatever the timing between pull and emit steps —
/// the delivered history is exactly the first part of the emitted history.
pub proof fn lemma_delivered_prefix_of_emitted<T>(rendezvous: Rendezvous<T>)
    requires
        rendezvous.inv(),
    ensures
        rendezvous.delivered().len() <= rendezvous.emitted().len(),
        rendezvous.delivered() == rendezvous.emitted().take(
            rendezvous.delivered().len() as int,
        ),
{
    assert(rendezvous.delivered() =~= rendezvous.emitted().take(
        rendezvous.delivered().len() as int,
    ));
}

} // verus!
