//! The generator and its yielder: the consumer-facing pull interface and the
//! producer handle the computation body emits through.

use vstd::prelude::*;

use crate::rendezvous::Rendezvous;

verus! {

/// The producer handle. The computation body receives one and calls its emit
/// operations at the points where it produces values. Values never flow from
/// the consumer back into the body, so a body is characterized entirely by the
/// sequence of values it emits: the yielder records that sequence, and the
/// generator built from it then delivers the values through the rendezvous,
/// one per pull request. The view of a yielder is the sequence emitted so far.
pub struct Yielder<T> {
    emitted: Vec<T>,
}

impl<T> View for Yielder<T> {
    type V = Seq<T>;

    closed spec fn view(&self) -> Seq<T> {
        self.emitted@
    }
}

/// The lifecycle of the worker behind a generator, as the consumer observes
/// it: running, returned but not yet joined, or joined for good. The terminal
/// state is absorbing and there is no way back to running.
#[derive(Clone, Copy)]
pub enum WorkerPhase {
    Running,
    FinishedUnjoined,
    Terminal,
}

/// The consumer's end: a fused pull interface over the values the body emits.
/// Each pull registers one request on the handshake counter and receives one
/// value over the delivery channel, or observes the channel closed and joins
/// the finished worker. The worker's progress is driven by the pulls: it sits
/// in its spin until a request is registered, so no value is produced before
/// it is asked for, and the producer never runs more than one value ahead.
pub struct Generator<T> {
    rendezvous: Rendezvous<T>,
    remaining: Vec<T>,
    phase: WorkerPhase,
}

/// The abstract state of a generator: what it has delivered, what the body has
/// yet to emit, and whether the worker has been joined. The pull operation is,
/// at this level, the pure transition `pull_once`.
#[verifier::ext_equal]
pub struct GeneratorModel<T> {
    pub delivered: Seq<T>,
    pub remaining: Seq<T>,
    pub terminal: bool,
}

/// The abstract state of a freshly constructed generator for a body that
/// emits `script`: nothing delivered, nothing joined.
pub open spec fn fresh_generator<T>(script: Seq<T>) -> GeneratorModel<T> {
    GeneratorModel { delivered: Seq::empty(), remaining: script, terminal: false }
}

/// One pull, abstractly: while the body has values left, a pull hands out the
/// oldest one; once the body is done, a pull joins the worker and returns the
/// exhausted sentinel, and every later pull does the same.
pub open spec fn pull_once<T>(m: GeneratorModel<T>) -> (GeneratorModel<T>, Option<T>) {
    if m.remaining.len() > 0 {
        (
            GeneratorModel {
                delivered: m.delivered.push(m.remaining[0]),
                remaining: m.remaining.skip(1),
                terminal: false,
            },
            Some(m.remaining[0]),
        )
    } else {
        (
            GeneratorModel { delivered: m.delivered, remaining: m.remaining, terminal: true },
            None,
        )
    }
}

impl<T> Generator<T> {
    /// The values the body has yet to emit.
    pub closed spec fn remaining(&self) -> Seq<T> {
        self.remaining@
    }

    /// The values the consumer has pulled so far, in the order it got them.
    pub closed spec fn delivered(&self) -> Seq<T> {
        self.rendezvous.delivered()
    }

    /// The body's full emission sequence: what has been delivered followed by
    /// what is still to come. Pulling never changes it.
    pub open spec fn script(&self) -> Seq<T> {
        self.delivered() + self.remaining()
    }

    /// Where the worker stands in its lifecycle.
    pub closed spec fn worker_phase(&self) -> WorkerPhase {
        self.phase
    }

    /// Whether the generator is permanently exhausted: the worker has been
    /// observed finished and joined.
    pub open spec fn is_terminal(&self) -> bool {
        self.worker_phase() is Terminal
    }

    /// The abstract state of this generator.
    pub open spec fn model(&self) -> GeneratorModel<T> {
        GeneratorModel {
            delivered: self.delivered(),
            remaining: self.remaining(),
            terminal: self.is_terminal(),
        }
    }

    /// Internal consistency: between pulls no request is outstanding and no
    /// value is in flight, the channel is open exactly while the worker runs,
    /// and the worker runs exactly while the body has values left to emit.
    pub closed spec fn wf(&self) -> bool {
        &&& self.rendezvous.inv()
        &&& self.rendezvous.requests() == 0
        &&& self.rendezvous.in_flight() == Seq::<T>::empty()
        &&& (self.rendezvous.is_open() <==> self.phase is Running)
        &&& (self.phase is Running <==> self.remaining@.len() > 0)
    }

    /// Constructs a generator and starts its worker on the given body. No
    /// value is produced before the first pull; a body that emits nothing
    /// returns at once, dropping the sending half of the channel.
    pub fn new(body: Yielder<T>) -> (generator: Generator<T>)
        ensures
            generator.wf(),
            generator.model() == fresh_generator(body@),
            generator.script() == body@,
            generator.delivered() == Seq::<T>::empty(),
            !generator.is_terminal(),
    {
        let script = body.emitted;
        let mut rendezvous = Rendezvous::new();
        let generator = if script.len() == 0 {
            rendezvous.close();
            Generator { rendezvous, remaining: script, phase: WorkerPhase::FinishedUnjoined }
        } else {
            Generator { rendezvous, remaining: script, phase: WorkerPhase::Running }
        };
        proof {
            assert(generator.script() =~= body@);
            assert(generator.model() =~= fresh_generator(body@));
        }
        generator
    }

    /// The pull operation: returns the next value the body emits, or the
    /// exhausted sentinel once the body is done — and keeps returning it, so
    /// the generator is fused. A pull that finds the worker still running
    /// registers one request on the handshake counter; the worker's spin
    /// observes it, consumes it and sends exactly one value, which this pull
    /// receives. A pull that finds the worker finished joins it and becomes
    /// terminal.
    pub fn next(&mut self) -> (result: Option<T>)
        requires
            old(self).wf(),
        ensures
            final(self).wf(),
            final(self).script() == old(self).script(),
            final(self).model() == pull_once(old(self).model()).0,
            result == pull_once(old(self).model()).1,
    {
        match self.phase {
            WorkerPhase::Terminal => None,
            WorkerPhase::FinishedUnjoined => {
                // the worker has returned: join it and stay exhausted for good
                self.phase = WorkerPhase::Terminal;
                proof {
                    assert(final(self).model() =~= pull_once(old(self).model()).0);
                }
                None
            },
            WorkerPhase::Running => {
                self.rendezvous.register_pull();
                // the worker's spin observes the ledger until a request is
                // outstanding; the one just registered ends it at once
                while !self.rendezvous.pull_request_pending()
                    invariant
                        self.rendezvous.requests() == 1,
                    decreases 0int,
                {
                }
                // the worker consumes the request and emits its next value
                let value = self.remaining.remove(0);
                self.rendezvous.emit(value);
                if self.remaining.len() == 0 {
                    // the body has nothing further: it returns, dropping the sender
                    self.rendezvous.close();
                    self.phase = WorkerPhase::FinishedUnjoined;
                }
                let received = self.rendezvous.receive();
                proof {
                    assert(self.remaining@ =~= old(self).remaining@.skip(1));
                    assert(self.rendezvous.in_flight() =~= Seq::<T>::empty());
                    assert(final(self).script() =~= old(self).script());
                    assert(final(self).model() =~= pull_once(old(self).model()).0);
                }
                received
            },
        }
    }
}

/// The abstract result of pulling a generator in state `m` a total of `n`
/// times: the state afterwards and the `n` results in order.
pub open spec fn pull_many<T>(m: GeneratorModel<T>, n: nat) -> (GeneratorModel<T>, Seq<Option<T>>)
    decreases n,
{
    if n == 0 {
        (m, Seq::empty())
    } else {
        let (mid, outputs) = pull_many(m, (n - 1) as nat);
        let (last, result) = pull_once(mid);
        (last, outputs.push(result))
    }
}

/// What `n` pulls on a body that emits `script` are owed to return: the
/// script's values in order, then the exhausted sentinel for every pull past
/// the end.
pub open spec fn expected_outputs<T>(script: Seq<T>, n: nat) -> Seq<Option<T>> {
    Seq::new(n, |i: int| if i < script.len() { Some(script[i]) } else { None })
}

/// After `n` pulls on a fresh generator for `script`, exactly the first `n`
/// of the script's values (or all of them, if it is shorter) have been
/// delivered, in script order; the rest are still to come; and the worker is
/// joined exactly when some pull has already found the body finished. In
/// particular nothing delivered was ever outside the script, skipped,
/// duplicated or reordered.
pub proof fn lemma_pull_state<T>(script: Seq<T>, n: nat)
    ensures
        ({
            let steps = if n <= script.len() {
                n as int
            } else {
                script.len() as int
            };
            let m = pull_many(fresh_generator(script), n).0;
            &&& m.delivered == script.take(steps)
            &&& m.remaining == script.skip(steps)
            &&& m.terminal == (n > script.len())
        }),
    decreases n,
{
    if n == 0 {
        assert(script.take(0) =~= Seq::<T>::empty());
        assert(script.skip(0) =~= script);
    } else {
        lemma_pull_state(script, (n - 1) as nat);
        let mid = pull_many(fresh_generator(script), (n - 1) as nat).0;
        if n - 1 < script.len() {
            // the n-th pull hands out the script's next value
            assert(mid.remaining[0] == script[n - 1]);
            assert(mid.delivered.push(script[n - 1]) =~= script.take(n as int));
            assert(mid.remaining.skip(1) =~= script.skip(n as int));
        }
    }
}

/// Law: pulling a generator repeatedly yields exactly the values its body
/// emits, in emission order, followed by the exhausted sentinel on every
/// subsequent pull — the terminal state is idempotent.
pub proof fn lemma_pull_sequence<T>(script: Seq<T>, n: nat)
    ensures
        pull_many(fresh_generator(script), n).1 == expected_outputs(script, n),
    decreases n,
{
    if n == 0 {
        assert(pull_many(fresh_generator(script), n).1 =~= expected_outputs(script, n));
    } else {
        lemma_pull_sequence(script, (n - 1) as nat);
        lemma_pull_state(script, (n - 1) as nat);
        assert(pull_many(fresh_generator(script), n).1 =~= expected_outputs(script, n));
    }
}

/// Law: emit-from composition. A body that emits-from a first sequence and
/// then emits-from a second one, through a fresh yielder, records exactly
/// their concatenation — by `yield_from`'s contract its yielder's view is
/// `(empty + first) + second` — and the generator built from it delivers that
/// concatenation, value for value, followed by the exhausted sentinel.
pub proof fn lemma_emit_from_composition<T>(first: Seq<T>, second: Seq<T>, n: nat)
    ensures
        pull_many(fresh_generator((Seq::<T>::empty() + first) + second), n).1 == expected_outputs(
            first + second,
            n,
        ),
{
    assert((Seq::<T>::empty() + first) + second =~= first + second);
    lemma_pull_sequence(first + second, n);
}

impl<T> Yielder<T> {
    /// A fresh producer handle that has emitted nothing.
    pub fn new() -> (yielder: Yielder<T>)
        ensures
            yielder@ == Seq::<T>::empty(),
    {
        Yielder { emitted: Vec::new() }
    }

    /// Emits one value: it takes its place after everything emitted before.
    /// In the running system this is the operation that spins until a pull
    /// request is outstanding, consumes it, and sends the value.
    pub fn emit(&mut self, value: T)
        ensures
            final(self)@ == old(self)@.push(value),
    {
        self.emitted.push(value);
    }

    /// Emits every value of the source, in source order: purely a composition
    /// of single emits, with the same pacing per element.
    pub fn yield_from(&mut self, source: Vec<T>)
        ensures
            final(self)@ == old(self)@ + source@,
    {
        let mut source = source;
        let ghost initial = self@;
        let ghost pending = source@;
        while source.len() > 0
            invariant
                self@ + source@ == initial + pending,
            decreases source.len(),
        {
            let value = source.remove(0);
            self.emit(value);
            proof {
                assert(self@ + source@ =~= initial + pending);
            }
        }
        proof {
            assert(initial + pending =~= self@);
        }
    }

    /// Emits everything a nested generator has yet to deliver, in its order,
    /// by pulling it to exhaustion and emitting each value: a generator is
    /// itself a valid source for emit-from composition.
    pub fn yield_from_generator(&mut self, source: Generator<T>)
        requires
            source.wf(),
        ensures
            final(self)@ == old(self)@ + source.remaining(),
    {
        let mut source = source;
        let ghost initial = self@;
        let ghost pending = source.remaining();
        loop
            invariant_except_break
                source.wf(),
                self@ + source.remaining() == initial + pending,
            ensures
                self@ == initial + pending,
            decreases source.remaining().len(),
        {
            match source.next() {
                Some(value) => {
                    self.emit(value);
                    proof {
                        assert(self@ + source.remaining() =~= initial + pending);
                    }
                },
                None => {
                    proof {
                        assert(self@ =~= initial + pending);
                    }
                    break;
                },
            }
        }
    }
}

} // verus!
