//! The candidate handoff between traversal and selection: a single-producer,
//! single-consumer FIFO. The producer closes it exactly once when traversal
//! ends; the consumer abandons it when selection ends, which is the
//! cancellation signal the producer observes.

use vstd::prelude::*;
use crate::types::Candidate;

verus! {

/// What one receive attempt yields.
pub enum RecvOutcome {
    /// The next candidate, in emission order.
    Item(Candidate),
    /// Nothing queued yet, but the producer may still send.
    Pending,
    /// Nothing queued and the producer has closed: the stream is complete.
    Done,
}

/// The handoff channel. `sent` records every candidate ever accepted for
/// delivery, and `taken` counts how many of those the consumer has received:
/// the consumer sees exactly the sent sequence, in order.
pub struct CandidateChannel {
    queue: Vec<Candidate>,
    sent: Ghost<Seq<Candidate>>,
    taken: Ghost<nat>,
    producer_done: bool,
    consumer_open: bool,
}

impl CandidateChannel {
    /// Every candidate ever accepted for delivery, in order.
    pub closed spec fn sent(self) -> Seq<Candidate> {
        self.sent@
    }

    /// How many sent candidates the consumer has taken so far.
    pub closed spec fn taken(self) -> nat {
        self.taken@
    }

    /// Whether the producer has closed its end.
    pub closed spec fn producer_done(self) -> bool {
        self.producer_done
    }

    /// Whether the consumer still holds its receiving end.
    pub closed spec fn consumer_open(self) -> bool {
        self.consumer_open
    }

    /// The queue holds exactly the sent candidates not yet taken.
    pub closed spec fn wf(self) -> bool {
        &&& self.taken@ + self.queue@.len() == self.sent@.len()
        &&& self.queue@ == self.sent@.skip(self.taken@ as int)
    }

    /// The consumer can never have taken more than was sent.
    pub proof fn taken_within_sent(&self)
        requires
            self.wf(),
        ensures
            self.taken() <= self.sent().len(),
    {
    }

    /// A fresh channel: nothing sent, both ends attached.
    pub fn new() -> (c: Self)
        ensures
            c.wf(),
            c.sent() == Seq::<Candidate>::empty(),
            c.taken() == 0nat,
            !c.producer_done(),
            c.consumer_open(),
    {
        let c = CandidateChannel {
            queue: Vec::new(),
            sent: Ghost(Seq::empty()),
            taken: Ghost(0nat),
            producer_done: false,
            consumer_open: true,
        };
        proof {
            assert(c.sent@.skip(0) =~= c.queue@);
        }
        c
    }

    /// Whether a send would be accepted: the cancellation token the producer
    /// checks at each visit step.
    pub fn is_open_for_send(&self) -> (r: bool)
        ensures
            r == self.consumer_open(),
    {
        self.consumer_open
    }

    /// Hands one candidate to the consumer side. A send to an abandoned
    /// channel is refused and changes nothing: that is the unconditional
    /// stop signal for the producer.
    pub fn send(&mut self, c: Candidate) -> (ok: bool)
        requires
            old(self).wf(),
            !old(self).producer_done(),
        ensures
            final(self).wf(),
            ok == old(self).consumer_open(),
            old(self).consumer_open() ==> {
                &&& final(self).sent() == old(self).sent().push(c)
                &&& final(self).taken() == old(self).taken()
                &&& !final(self).producer_done()
                &&& final(self).consumer_open()
            },
            !old(self).consumer_open() ==> *final(self) == *old(self),
    {
        if self.consumer_open {
            let ghost s0 = self.sent@;
            let ghost t0 = self.taken@;
            self.queue.push(c);
            proof {
                self.sent@ = s0.push(c);
                assert(self.sent@.skip(t0 as int) =~= self.queue@);
            }
            true
        } else {
            false
        }
    }

    /// The producer closes its end after its last send.
    pub fn finish(&mut self)
        requires
            old(self).wf(),
            !old(self).producer_done(),
        ensures
            final(self).wf(),
            final(self).producer_done(),
            final(self).sent() == old(self).sent(),
            final(self).taken() == old(self).taken(),
            final(self).consumer_open() == old(self).consumer_open(),
    {
        self.producer_done = true;
    }

    /// The consumer abandons its end; any undelivered candidates stay
    /// undelivered, and every later send is refused.
    pub fn abandon(&mut self)
        requires
            old(self).wf(),
        ensures
            final(self).wf(),
            !final(self).consumer_open(),
            final(self).sent() == old(self).sent(),
            final(self).taken() == old(self).taken(),
            final(self).producer_done() == old(self).producer_done(),
    {
        self.consumer_open = false;
    }

    /// One non-blocking receive attempt. The consumer observes the sent
    /// candidates exactly in the order they were sent.
    pub fn try_recv(&mut self) -> (r: RecvOutcome)
        requires
            old(self).wf(),
            old(self).consumer_open(),
        ensures
            final(self).wf(),
            final(self).sent() == old(self).sent(),
            final(self).consumer_open(),
            final(self).producer_done() == old(self).producer_done(),
            old(self).taken() < old(self).sent().len() ==> {
                &&& r == RecvOutcome::Item(old(self).sent()[old(self).taken() as int])
                &&& final(self).taken() == old(self).taken() + 1
            },
            old(self).taken() == old(self).sent().len() ==> {
                &&& *final(self) == *old(self)
                &&& r == (if old(self).producer_done() {
                    RecvOutcome::Done
                } else {
                    RecvOutcome::Pending
                })
            },
    {
        if self.queue.len() > 0 {
            let ghost q0 = self.queue@;
            let ghost t0 = self.taken@;
            let c = self.queue.remove(0);
            proof {
                assert(c == self.sent@[t0 as int]);
                self.taken@ = t0 + 1;
                assert(self.queue@ =~= q0.skip(1));
                assert(self.sent@.skip(self.taken@ as int) =~= self.queue@);
            }
            RecvOutcome::Item(c)
        } else if self.producer_done {
            RecvOutcome::Done
        } else {
            RecvOutcome::Pending
        }
    }
}

} // verus!
