//! The event relay: a bounded, first-in-first-out queue of text events with
//! an open/closed state, and the consumer's termination rule.
//!
//! Producers suspend when the queue is full rather than dropping; a send to
//! a permanently closed queue is a hard error; the consumer keeps draining
//! until the queue is both empty and closed. The queue itself is modelled by
//! [`RelayModel`], and the no-loss property of any interleaving of sends and
//! receives is proved over operation traces.

use vstd::prelude::*;

verus! {

/// Spec-level state of the relay queue: its texts in arrival order, its
/// fixed capacity, and whether it has been permanently closed.
pub ghost struct RelayModel {
    pub items: Seq<Seq<char>>,
    pub capacity: nat,
    pub closed: bool,
}

impl RelayModel {
    /// The queue never holds more than its capacity.
    pub open spec fn well_formed(self) -> bool {
        self.items.len() <= self.capacity && self.capacity >= 1
    }

    /// A send succeeds exactly when the queue is open and not full.
    pub open spec fn can_accept(self) -> bool {
        !self.closed && self.items.len() < self.capacity
    }
}

/// A bounded multi-producer/single-consumer queue of text events.
pub struct Relay {
    items: Vec<String>,
    capacity: usize,
    closed: bool,
}

impl View for Relay {
    type V = RelayModel;

    closed spec fn view(&self) -> RelayModel {
        RelayModel {
            items: self.items@.map(|i: int, s: String| s@),
            capacity: self.capacity as nat,
            closed: self.closed,
        }
    }
}

/// What a producer observes when it offers an event.
#[derive(Debug, PartialEq, Eq)]
pub enum SendOutcome {
    /// The event was enqueued.
    Sent,
    /// The queue is at capacity; the producer must suspend and retry.
    Full,
    /// The queue is permanently closed; the send is a hard error.
    Closed,
}

/// What the consumer observes when it asks for an event.
#[derive(Debug, PartialEq, Eq)]
pub enum RecvOutcome {
    /// The oldest queued event.
    Item(String),
    /// Nothing queued yet, but producers may still send.
    Empty,
    /// Nothing queued and the queue is closed: no event will ever come.
    Disconnected,
}

/// What the consumer loop does after one receive.
#[derive(Debug, PartialEq, Eq)]
pub enum ConsumerAction {
    /// Present this text to the downstream sink.
    Deliver(String),
    /// A transient receive failure: log it and keep consuming.
    KeepWaiting,
    /// The queue is drained and closed: terminate.
    Stop,
}

impl Relay {
    /// A fresh, open, empty queue of the given capacity.
    pub fn new(capacity: usize) -> (r: Relay)
        requires
            capacity >= 1,
        ensures
            r@.items == Seq::<Seq<char>>::empty(),
            r@.capacity == capacity as nat,
            !r@.closed,
            r@.well_formed(),
    {
        let r = Relay { items: Vec::new(), capacity, closed: false };
        proof {
            assert(r@.items =~= Seq::<Seq<char>>::empty());
        }
        r
    }

    /// Offers one event. Exactly one of the three outcomes happens: the
    /// event is appended behind every earlier one, or the queue is full and
    /// unchanged, or the queue is closed and unchanged.
    pub fn send(&mut self, msg: String) -> (r: SendOutcome)
        requires
            old(self)@.well_formed(),
        ensures
            final(self)@.capacity == old(self)@.capacity,
            final(self)@.closed == old(self)@.closed,
            final(self)@.well_formed(),
            old(self)@.closed ==> r is Closed && final(self)@ == old(self)@,
            !old(self)@.closed && !old(self)@.can_accept() ==> r is Full && final(self)@ == old(
                self,
            )@,
            old(self)@.can_accept() ==> r is Sent && final(self)@.items == old(
                self,
            )@.items.push(msg@),
            final(self)@ == relay_op_step(old(self)@, RelayOp::Give(msg@)),
    {
        if self.closed {
            SendOutcome::Closed
        } else if self.items.len() >= self.capacity {
            SendOutcome::Full
        } else {
            let ghost before = self@.items;
            let ghost m = msg@;
            self.items.push(msg);
            proof {
                assert(self@.items =~= before.push(m));
            }
            SendOutcome::Sent
        }
    }

    /// Takes the oldest event if there is one; otherwise reports whether
    /// the consumer should wait (queue still open) or stop (closed).
    pub fn recv(&mut self) -> (r: RecvOutcome)
        requires
            old(self)@.well_formed(),
        ensures
            final(self)@.capacity == old(self)@.capacity,
            final(self)@.closed == old(self)@.closed,
            final(self)@.well_formed(),
            old(self)@.items.len() > 0 ==> (r matches RecvOutcome::Item(s) && s@ == old(
                self,
            )@.items[0]) && final(self)@.items == old(self)@.items.drop_first(),
            old(self)@.items.len() == 0 && !old(self)@.closed ==> r is Empty && final(self)@ == old(
                self,
            )@,
            old(self)@.items.len() == 0 && old(self)@.closed ==> r is Disconnected && final(self)@
                == old(self)@,
            final(self)@ == relay_op_step(old(self)@, RelayOp::Take),
    {
        if self.items.len() > 0 {
            let ghost before = self@.items;
            let s = self.items.remove(0);
            proof {
                assert(self@.items =~= before.drop_first());
            }
            RecvOutcome::Item(s)
        } else if self.closed {
            RecvOutcome::Disconnected
        } else {
            RecvOutcome::Empty
        }
    }

    /// Permanently closes the queue: every sender is gone. Queued events
    /// stay and can still be drained.
    pub fn close(&mut self)
        ensures
            final(self)@.capacity == old(self)@.capacity,
            final(self)@.items == old(self)@.items,
            final(self)@.closed,
            final(self)@ == relay_op_step(old(self)@, RelayOp::Shut),
    {
        self.closed = true;
    }
}

/// The consumer loop's decision after one receive: deliver an item, keep
/// consuming after a transient failure, and terminate only once the queue
/// is both empty and permanently closed.
pub fn consumer_step(outcome: RecvOutcome) -> (a: ConsumerAction)
    ensures
        match outcome {
            RecvOutcome::Item(s) => a matches ConsumerAction::Deliver(t) && t@ == s@,
            RecvOutcome::Empty => a is KeepWaiting,
            RecvOutcome::Disconnected => a is Stop,
        },
{
    match outcome {
        RecvOutcome::Item(s) => ConsumerAction::Deliver(s),
        RecvOutcome::Empty => ConsumerAction::KeepWaiting,
        RecvOutcome::Disconnected => ConsumerAction::Stop,
    }
}

/// One operation applied to the queue by some producer or the consumer.
pub ghost enum RelayOp {
    /// A producer offers this text.
    Give(Seq<char>),
    /// The consumer asks for the oldest text.
    Take,
    /// The last producer goes away.
    Shut,
}

/// How one operation changes the queue: exactly as [`Relay::send`],
/// [`Relay::recv`] and [`Relay::close`] do.
pub open spec fn relay_op_step(m: RelayModel, op: RelayOp) -> RelayModel {
    match op {
        RelayOp::Give(x) => if m.can_accept() {
            RelayModel { items: m.items.push(x), ..m }
        } else {
            m
        },
        RelayOp::Take => if m.items.len() > 0 {
            RelayModel { items: m.items.drop_first(), ..m }
        } else {
            m
        },
        RelayOp::Shut => RelayModel { closed: true, ..m },
    }
}

/// The queue state after a whole trace of operations.
pub open spec fn relay_run(m: RelayModel, ops: Seq<RelayOp>) -> RelayModel
    decreases ops.len(),
{
    if ops.len() == 0 {
        m
    } else {
        relay_run(relay_op_step(m, ops[0]), ops.drop_first())
    }
}

/// The texts whose sends succeeded over the trace, in send order.
pub open spec fn relay_accepted(m: RelayModel, ops: Seq<RelayOp>) -> Seq<Seq<char>>
    decreases ops.len(),
{
    if ops.len() == 0 {
        Seq::empty()
    } else {
        (match ops[0] {
            RelayOp::Give(x) => if m.can_accept() {
                seq![x]
            } else {
                Seq::empty()
            },
            _ => Seq::empty(),
        }) + relay_accepted(relay_op_step(m, ops[0]), ops.drop_first())
    }
}

/// The texts the consumer observed over the trace, in receive order.
pub open spec fn relay_received(m: RelayModel, ops: Seq<RelayOp>) -> Seq<Seq<char>>
    decreases ops.len(),
{
    if ops.len() == 0 {
        Seq::empty()
    } else {
        (match ops[0] {
            RelayOp::Take => if m.items.len() > 0 {
                seq![m.items[0]]
            } else {
                Seq::empty()
            },
            _ => Seq::empty(),
        }) + relay_received(relay_op_step(m, ops[0]), ops.drop_first())
    }
}

/// The queue loses nothing and invents nothing: over any interleaving of
/// sends, receives and the close, what was received followed by what is
/// still queued equals what was queued at the start followed by every
/// successfully sent text, in order.
pub proof fn lemma_relay_preserves_items(m: RelayModel, ops: Seq<RelayOp>)
    ensures
        relay_received(m, ops) + relay_run(m, ops).items == m.items + relay_accepted(m, ops),
    decreases ops.len(),
{
    if ops.len() == 0 {
        assert(relay_received(m, ops) + relay_run(m, ops).items =~= m.items + relay_accepted(
            m,
            ops,
        ));
    } else {
        let m2 = relay_op_step(m, ops[0]);
        let rest = ops.drop_first();
        lemma_relay_preserves_items(m2, rest);
        match ops[0] {
            RelayOp::Give(x) => {
                if m.can_accept() {
                    assert(relay_received(m, ops) =~= relay_received(m2, rest));
                    assert(relay_accepted(m, ops) =~= seq![x] + relay_accepted(m2, rest));
                    assert(m.items.push(x) + relay_accepted(m2, rest) =~= m.items + (seq![x]
                        + relay_accepted(m2, rest)));
                    assert(relay_received(m, ops) + relay_run(m, ops).items =~= m.items
                        + relay_accepted(m, ops));
                } else {
                    assert(relay_received(m, ops) + relay_run(m, ops).items =~= m.items
                        + relay_accepted(m, ops));
                }
            },
            RelayOp::Take => {
                if m.items.len() > 0 {
                    assert(relay_received(m, ops) =~= seq![m.items[0]] + relay_received(m2, rest));
                    assert(seq![m.items[0]] + m.items.drop_first() =~= m.items);
                    assert((seq![m.items[0]] + relay_received(m2, rest)) + relay_run(m, ops).items
                        =~= seq![m.items[0]] + (relay_received(m2, rest) + relay_run(
                        m2,
                        rest,
                    ).items));
                    assert(seq![m.items[0]] + (m2.items + relay_accepted(m2, rest)) =~= (seq![
                        m.items[0],
                    ] + m2.items) + relay_accepted(m2, rest));
                    assert(relay_received(m, ops) + relay_run(m, ops).items =~= m.items
                        + relay_accepted(m, ops));
                } else {
                    assert(relay_received(m, ops) + relay_run(m, ops).items =~= m.items
                        + relay_accepted(m, ops));
                }
            },
            RelayOp::Shut => {
                assert(relay_received(m, ops) + relay_run(m, ops).items =~= m.items
                    + relay_accepted(m, ops));
            },
        }
    }
}

/// Starting from an empty queue, once the trace has drained the queue the
/// consumer has observed every successfully sent text exactly once, in
/// send order.
pub proof fn lemma_relay_no_loss(m: RelayModel, ops: Seq<RelayOp>)
    requires
        m.items.len() == 0,
        relay_run(m, ops).items.len() == 0,
    ensures
        relay_received(m, ops) == relay_accepted(m, ops),
{
    lemma_relay_preserves_items(m, ops);
    assert(relay_received(m, ops) =~= relay_received(m, ops) + relay_run(m, ops).items);
    assert(m.items + relay_accepted(m, ops) =~= relay_accepted(m, ops));
}

} // verus!
