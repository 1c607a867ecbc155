use std::collections::VecDeque;
use vstd::prelude::*;

verus! {

/// How the transfer of one queued file ended.
#[derive(Clone, Copy, Debug, PartialEq, Eq, Structural)]
pub enum TransferOutcome {
    /// Sent, acknowledged and closed.
    Delivered,
    /// The local file could not be opened: it is dropped from the queue.
    Missing,
    /// Reading the local file failed.
    ReadFailed,
    /// The remote write stream could not be opened.
    SendFailed,
    /// Writing the contents to the remote stream failed.
    WriteFailed,
    /// End-of-stream was not sent or not acknowledged.
    EofFailed,
    /// Closing the stream failed after the contents went through.
    CloseFailed,
}

impl TransferOutcome {
    /// The item goes back to the tail of the queue.
    pub open spec fn requeues(self) -> bool {
        match self {
            TransferOutcome::ReadFailed | TransferOutcome::SendFailed
            | TransferOutcome::WriteFailed | TransferOutcome::EofFailed => true,
            _ => false,
        }
    }

    /// Delivery of the class stops for this tick after this item.
    pub open spec fn halts(self) -> bool {
        self.requeues() || self == TransferOutcome::CloseFailed
    }

    pub fn is_requeued(&self) -> (r: bool)
        ensures
            r == self.requeues(),
    {
        match self {
            TransferOutcome::ReadFailed | TransferOutcome::SendFailed
            | TransferOutcome::WriteFailed | TransferOutcome::EofFailed => true,
            _ => false,
        }
    }

    pub fn is_halting(&self) -> (r: bool)
        ensures
            r == self.halts(),
    {
        match self {
            TransferOutcome::Delivered | TransferOutcome::Missing => false,
            _ => true,
        }
    }
}

/// The queue after the item `item`, popped from its head, ended with `o`;
/// `rest` is what stayed queued behind it.
pub open spec fn settle(rest: Seq<String>, item: String, o: TransferOutcome) -> Seq<String> {
    if o.requeues() {
        rest.push(item)
    } else {
        rest
    }
}

/// The queue left by one tick's delivery of `q` in which the attempted items
/// ended with `outs`, in order: items are taken from the head until the queue
/// is empty, the outcomes run out, or an outcome halts the class.
pub open spec fn drained(q: Seq<String>, outs: Seq<TransferOutcome>) -> Seq<String>
    decreases outs.len(),
{
    if outs.len() == 0 || q.len() == 0 {
        q
    } else if outs[0].halts() {
        settle(q.drop_first(), q[0], outs[0])
    } else {
        drained(q.drop_first(), outs.drop_first())
    }
}

/// Whether some outcome of `outs` halts the class.
pub open spec fn has_halted(outs: Seq<TransferOutcome>) -> bool {
    exists|i: int| 0 <= i < outs.len() && (#[trigger] outs[i]).halts()
}

/// One tick's delivery of one class's queue, as a state machine that the
/// caller drives: `next_item` hands out the head of the queue (pending to
/// in flight), `report` takes the outcome of its transfer (in flight to
/// delivered, or deferred at the tail), until `next_item` returns `None`.
pub struct Drain {
    queue: VecDeque<String>,
    in_flight: Option<String>,
    halted: bool,
    start: Ghost<Seq<String>>,
    reported: Ghost<Seq<TransferOutcome>>,
}

impl Drain {
    /// The names still queued (not counting the one in flight).
    pub closed spec fn pending(&self) -> Seq<String> {
        self.queue@
    }

    pub closed spec fn current(&self) -> Option<String> {
        self.in_flight
    }

    pub closed spec fn is_halted(&self) -> bool {
        self.halted
    }

    /// The queue this delivery started from.
    pub closed spec fn started_from(&self) -> Seq<String> {
        self.start@
    }

    /// The outcomes reported so far, in order.
    pub closed spec fn outcomes(&self) -> Seq<TransferOutcome> {
        self.reported@
    }

    pub closed spec fn wf(&self) -> bool {
        &&& self.halted == has_halted(self.reported@)
        &&& match self.in_flight {
            None => self.queue@ == drained(self.start@, self.reported@),
            Some(x) => {
                &&& !self.halted
                &&& drained(self.start@, self.reported@) == seq![x] + self.queue@
            },
        }
    }

    /// Starts delivering `queue`.
    pub fn new(queue: VecDeque<String>) -> (r: Drain)
        ensures
            r.wf(),
            r.pending() == queue@,
            r.current() is None,
            !r.is_halted(),
            r.started_from() == queue@,
            r.outcomes() == Seq::<TransferOutcome>::empty(),
    {
        let ghost start = queue@;
        Drain {
            queue,
            in_flight: None,
            halted: false,
            start: Ghost(start),
            reported: Ghost(Seq::empty()),
        }
    }

    /// The next name to transfer: the head of the queue, unless the queue is
    /// empty or the class has halted, in which case the delivery is over.
    pub fn next_item(&mut self) -> (r: Option<String>)
        requires
            old(self).wf(),
            old(self).current() is None,
        ensures
            final(self).wf(),
            final(self).started_from() == old(self).started_from(),
            final(self).outcomes() == old(self).outcomes(),
            final(self).is_halted() == old(self).is_halted(),
            old(self).is_halted() || old(self).pending().len() == 0 ==> {
                &&& r is None
                &&& final(self).pending() == old(self).pending()
                &&& final(self).current() is None
            },
            !old(self).is_halted() && old(self).pending().len() > 0 ==> {
                &&& r == Some(old(self).pending()[0])
                &&& final(self).current() == r
                &&& final(self).pending() == old(self).pending().drop_first()
            },
    {
        if self.halted {
            return None;
        }
        let head = self.queue.pop_front();
        match head {
            Some(name) => {
                proof {
                    assert(seq![name] + self.queue@ =~= old(self).queue@);
                }
                self.in_flight = Some(name.clone());
                Some(name)
            },
            None => None,
        }
    }

    /// Records how the transfer of the name in flight ended.
    pub fn report(&mut self, outcome: TransferOutcome)
        requires
            old(self).wf(),
            old(self).current() is Some,
        ensures
            final(self).wf(),
            final(self).current() is None,
            final(self).pending() == settle(
                old(self).pending(),
                old(self).current()->0,
                outcome,
            ),
            final(self).is_halted() == outcome.halts(),
            final(self).started_from() == old(self).started_from(),
            final(self).outcomes() == old(self).outcomes().push(outcome),
    {
        let ghost old_reported = self.reported@;
        let item = self.in_flight.take().unwrap();
        proof {
            lemma_drained_push(self.start@, old_reported, outcome, item, self.queue@);
            assert(!has_halted(old_reported));
            let outs = old_reported.push(outcome);
            if outcome.halts() {
                assert(outs[outs.len() - 1].halts());
            } else {
                assert forall|i: int| 0 <= i < outs.len() implies !(#[trigger] outs[i]).halts() by {
                    if i < old_reported.len() {
                        assert(outs[i] == old_reported[i]);
                    }
                }
            }
            self.reported = Ghost(outs);
        }
        if outcome.is_requeued() {
            self.queue.push_back(item);
        }
        self.halted = outcome.is_halting();
    }

    /// Ends the delivery and hands back the queue.
    pub fn into_queue(self) -> (r: VecDeque<String>)
        requires
            self.wf(),
            self.current() is None,
        ensures
            r@ == self.pending(),
            r@ == drained(self.started_from(), self.outcomes()),
    {
        self.queue
    }
}

/// Extending the outcomes by one, while nothing has halted and `x` is in
/// flight with `rest` behind it, settles `x` by that outcome.
proof fn lemma_drained_push(
    q: Seq<String>,
    outs: Seq<TransferOutcome>,
    o: TransferOutcome,
    x: String,
    rest: Seq<String>,
)
    requires
        !has_halted(outs),
        drained(q, outs) == seq![x] + rest,
    ensures
        drained(q, outs.push(o)) == settle(rest, x, o),
    decreases outs.len(),
{
    let outs2 = outs.push(o);
    if outs.len() == 0 {
        assert(q == seq![x] + rest);
        assert(q.drop_first() =~= rest);
        assert(q[0] == x);
        if !o.halts() {
            assert(outs2.drop_first() =~= Seq::<TransferOutcome>::empty());
            assert(drained(rest, outs2.drop_first()) == rest);
            assert(drained(q, outs2) == drained(q.drop_first(), outs2.drop_first()));
        } else {
            assert(drained(q, outs2) == settle(q.drop_first(), q[0], o));
        }
    } else {
        assert(!outs[0].halts());
        assert(outs2[0] == outs[0]);
        assert(q.len() > 0) by {
            if q.len() == 0 {
                assert(drained(q, outs) == q);
            }
        }
        assert(outs2.drop_first() =~= outs.drop_first().push(o));
        assert(!has_halted(outs.drop_first())) by {
            if has_halted(outs.drop_first()) {
                let i = choose|i: int|
                    0 <= i < outs.drop_first().len() && (#[trigger] outs.drop_first()[i]).halts();
                assert(outs[i + 1] == outs.drop_first()[i]);
            }
        }
        assert(drained(q, outs) == drained(q.drop_first(), outs.drop_first()));
        lemma_drained_push(q.drop_first(), outs.drop_first(), o, x, rest);
        assert(drained(q, outs2) == drained(q.drop_first(), outs2.drop_first()));
    }
}

/// Items that neither fail nor halt are consumed one by one: after `i` of them
/// the delivery goes on from the rest of the queue and the rest of the outcomes.
pub proof fn lemma_drained_skip(q: Seq<String>, outs: Seq<TransferOutcome>, i: int)
    requires
        0 <= i <= q.len(),
        i <= outs.len(),
        forall|j: int| 0 <= j < i ==> !(#[trigger] outs[j]).halts(),
    ensures
        drained(q, outs) == drained(q.subrange(i, q.len() as int), outs.subrange(i, outs.len() as int)),
    decreases i,
{
    if i == 0 {
        assert(q.subrange(0, q.len() as int) =~= q);
        assert(outs.subrange(0, outs.len() as int) =~= outs);
    } else {
        assert(!outs[0].halts());
        assert forall|j: int| 0 <= j < i - 1 implies !(#[trigger] outs.drop_first()[j]).halts() by {
            assert(outs.drop_first()[j] == outs[j + 1]);
        }
        lemma_drained_skip(q.drop_first(), outs.drop_first(), i - 1);
        assert(q.drop_first().subrange(i - 1, q.len() - 1) =~= q.subrange(i, q.len() as int));
        assert(outs.drop_first().subrange(i - 1, outs.len() - 1) =~= outs.subrange(
            i,
            outs.len() as int,
        ));
    }
}

/// A transfer that fails while reading, opening the stream, writing or
/// finishing the stream stops the class: the items behind it stay queued in
/// their order, and the failed item goes to the tail after them. The items
/// before it were delivered or dropped.
pub proof fn lemma_failure_defers_rest(q: Seq<String>, outs: Seq<TransferOutcome>, i: int)
    requires
        0 <= i < q.len(),
        i < outs.len(),
        forall|j: int| 0 <= j < i ==> !(#[trigger] outs[j]).halts(),
        outs[i].requeues(),
    ensures
        drained(q, outs) == q.subrange(i + 1, q.len() as int).push(q[i]),
{
    lemma_drained_skip(q, outs, i);
    let q2 = q.subrange(i, q.len() as int);
    let o2 = outs.subrange(i, outs.len() as int);
    assert(o2[0] == outs[i]);
    assert(q2.drop_first() =~= q.subrange(i + 1, q.len() as int));
}

/// A transfer whose close fails stops the class and counts as delivered: the
/// items behind it stay queued in their order, without it.
pub proof fn lemma_close_failure_delivers(q: Seq<String>, outs: Seq<TransferOutcome>, i: int)
    requires
        0 <= i < q.len(),
        i < outs.len(),
        forall|j: int| 0 <= j < i ==> !(#[trigger] outs[j]).halts(),
        outs[i] == TransferOutcome::CloseFailed,
    ensures
        drained(q, outs) == q.subrange(i + 1, q.len() as int),
{
    lemma_drained_skip(q, outs, i);
    let q2 = q.subrange(i, q.len() as int);
    let o2 = outs.subrange(i, outs.len() as int);
    assert(o2[0] == outs[i]);
    assert(q2.drop_first() =~= q.subrange(i + 1, q.len() as int));
}

/// When every item of the queue is delivered or dropped, nothing stays queued.
pub proof fn lemma_all_delivered_empties(q: Seq<String>, outs: Seq<TransferOutcome>)
    requires
        q.len() <= outs.len(),
        forall|j: int| 0 <= j < q.len() ==> !(#[trigger] outs[j]).halts(),
    ensures
        drained(q, outs) == Seq::<String>::empty(),
{
    lemma_drained_skip(q, outs, q.len() as int);
    assert(q.subrange(q.len() as int, q.len() as int) =~= Seq::<String>::empty());
}

} // verus!
