//! The delivery channel: the ordered, single-producer single-consumer path
//! that carries emitted values from the producer to the consumer.

use vstd::prelude::*;

verus! {

/// The delivery path from producer to consumer: values travel in the order
/// they were sent, and dropping the sending half closes the channel, which is
/// the sole and irreversible termination signal. The thread-backed deployment
/// uses an unbounded channel between two threads; here the in-flight values
/// sit in a queue, and two ghost histories record everything ever sent and
/// everything ever handed to the receiver, so that the conservation of values
/// is a proved invariant rather than an assumption.
pub struct DeliveryChannel<T> {
    queue: Vec<T>,
    open: bool,
    sent: Ghost<Seq<T>>,
    received: Ghost<Seq<T>>,
}

impl<T> DeliveryChannel<T> {
    /// Every value ever sent, in sending order.
    pub closed spec fn sent(&self) -> Seq<T> {
        self.sent@
    }

    /// Every value the receiver has taken out, in receiving order.
    pub closed spec fn received(&self) -> Seq<T> {
        self.received@
    }

    /// The values sent but not yet received, oldest first.
    pub closed spec fn in_flight(&self) -> Seq<T> {
        self.queue@
    }

    /// Whether the sending half is still alive.
    pub closed spec fn is_open(&self) -> bool {
        self.open
    }

    /// Conservation of values: what was received, followed by what is still in
    /// flight, is exactly what was sent. Every operation preserves this, so the
    /// channel never loses, duplicates or reorders a value.
    pub open spec fn wf(&self) -> bool {
        self.received() + self.in_flight() == self.sent()
    }

    /// A fresh channel: open, empty, with empty histories.
    pub fn new() -> (channel: DeliveryChannel<T>)
        ensures
            channel.wf(),
            channel.is_open(),
            channel.sent() == Seq::<T>::empty(),
            channel.received() == Seq::<T>::empty(),
            channel.in_flight() == Seq::<T>::empty(),
    {
        let channel = DeliveryChannel {
            queue: Vec::new(),
            open: true,
            sent: Ghost(Seq::empty()),
            received: Ghost(Seq::empty()),
        };
        proof {
            assert(channel.received() + channel.in_flight() =~= channel.sent());
        }
        channel
    }

    /// The producer sends one value: it joins the in-flight queue and the sent
    /// history; nothing already sent or received is disturbed.
    pub fn send(&mut self, value: T)
        requires
            old(self).wf(),
            old(self).is_open(),
        ensures
            final(self).wf(),
            final(self).is_open(),
            final(self).sent() == old(self).sent().push(value),
            final(self).in_flight() == old(self).in_flight().push(value),
            final(self).received() == old(self).received(),
    {
        let ghost value_spec = value;
        self.queue.push(value);
        proof {
            self.sent@ = self.sent@.push(value_spec);
            assert(self.received() + self.in_flight() =~= self.sent());
        }
    }

    /// Dropping the sending half: the channel closes, irreversibly; values
    /// already in flight stay available to the receiver.
    pub fn close(&mut self)
        requires
            old(self).wf(),
        ensures
            final(self).wf(),
            !final(self).is_open(),
            final(self).sent() == old(self).sent(),
            final(self).in_flight() == old(self).in_flight(),
            final(self).received() == old(self).received(),
    {
        self.open = false;
    }

    /// The consumer's blocking receive, at the moment it completes: it returns
    /// the oldest in-flight value, or the exhausted signal when the channel is
    /// closed and drained. The deployment blocks until one of the two holds;
    /// the precondition states that the wait is over.
    pub fn recv(&mut self) -> (result: Option<T>)
        requires
            old(self).wf(),
            old(self).in_flight().len() > 0 || !old(self).is_open(),
        ensures
            final(self).wf(),
            final(self).is_open() == old(self).is_open(),
            final(self).sent() == old(self).sent(),
            old(self).in_flight().len() > 0 ==> {
                &&& result == Some(old(self).in_flight()[0])
                &&& final(self).in_flight() == old(self).in_flight().skip(1)
                &&& final(self).received() == old(self).received().push(old(self).in_flight()[0])
            },
            old(self).in_flight().len() == 0 ==> {
                &&& result is None
                &&& final(self).in_flight() == old(self).in_flight()
                &&& final(self).received() == old(self).received()
            },
    {
        if self.queue.len() > 0 {
            let ghost head = self.queue@[0];
            let value = self.queue.remove(0);
            proof {
                self.received@ = self.received@.push(head);
                assert(self.queue@ =~= old(self).queue@.skip(1));
                assert(self.received() + self.in_flight() =~= self.sent());
            }
            Some(value)
        } else {
            None
        }
    }
}

} // verus!
