//! The buffered channel as a queue: what the decisions of [`ring`](super::ring) add up
//! to when they are carried out one after the other.
//!
//! [`Channel`] puts the state word and the slots side by side with the history of the
//! channel, and [`Channel::send`], [`Channel::recv`] and [`Channel::close`] are the steps
//! that the link takes.  The laws below say that these steps make the ring a first-in
//! first-out queue of at most `len - 1` values that never forgets a value nor that it was
//! closed.

use crate::error::{Fault, RecvErrorNoWait, SendErrorNoWait};
use crate::spsc::buffered::bits::Fields;
use crate::spsc::buffered::ring::{
    capacity_ok, reclaim_plan, recv_plan, send_plan, RecvPlan, SendPlan,
};
use crate::utils::ring::{lemma_ring_full, next_index, ring_at, ring_distance, ring_full};
use vstd::prelude::*;

verus! {

/// A channel at one moment.
pub ghost struct Channel<T> {
    /// What the state word says.
    pub word: Fields,
    /// What each slot of the buffer holds.
    pub slots: Seq<Option<T>>,
    /// Every value that a send has accepted so far, oldest first.
    pub accepted: Seq<T>,
    /// How many of them a receive has handed out.
    pub delivered: nat,
}

/// One use of a channel by one of its endpoints.
pub ghost enum Op<T> {
    Send(T),
    Recv,
    Close,
}

impl<T> Channel<T> {
    /// The number of slots.
    pub open spec fn len(self) -> usize {
        self.slots.len() as usize
    }

    /// The number of values accepted and not yet handed out.
    pub open spec fn in_flight(self) -> int {
        self.accepted.len() - self.delivered
    }

    /// The values accepted and not yet handed out, oldest first.
    pub open spec fn queue(self) -> Seq<T> {
        self.accepted.skip(self.delivered as int)
    }

    /// The word, the slots and the history agree: both indices lie in the buffer, the
    /// tail is as many steps ahead of the head as values are in flight, and the slots from
    /// the head on hold exactly these values, in order, while every other slot is empty.
    pub open spec fn wf(self) -> bool {
        &&& self.slots.len() <= usize::MAX
        &&& capacity_ok(self.len())
        &&& self.word.head < self.len()
        &&& self.word.tail < self.len()
        &&& self.delivered <= self.accepted.len()
        &&& self.in_flight() == ring_distance(self.word.head, self.word.tail, self.len())
        &&& forall|k: int|
            0 <= k < self.len() ==> #[trigger] self.slots[ring_at(self.word.head, k, self.len())]
                == if k < self.in_flight() {
                Some(self.accepted[self.delivered + k])
            } else {
                None
            }
    }

    /// The channel over a buffer of `len` empty slots: open, nothing sent, no endpoint
    /// attached.
    pub open spec fn fresh(len: usize) -> Self {
        Channel {
            word: Fields { closed: false, tx_set: false, rx_set: false, head: 0, tail: 0 },
            slots: Seq::new(len as nat, |i: int| None),
            accepted: Seq::empty(),
            delivered: 0,
        }
    }

    /// A non-blocking send of `value`: the channel afterwards, and what the producer is
    /// told.
    pub open spec fn send(self, value: T) -> (Self, Result<Result<(), SendErrorNoWait<T>>, Fault>) {
        match send_plan(self.word, self.len()) {
            SendPlan::Closed => (self, Ok(Err(SendErrorNoWait::Closed(value)))),
            SendPlan::Full => (self, Ok(Err(SendErrorNoWait::Full(value)))),
            SendPlan::Fault(fault) => (self, Err(fault)),
            SendPlan::Write { slot, next } => if self.slots[slot as int] is Some {
                (self, Err(Fault::Corrupted))
            } else {
                (
                    Channel {
                        word: Fields { tail: next, ..self.word },
                        slots: self.slots.update(slot as int, Some(value)),
                        accepted: self.accepted.push(value),
                        delivered: self.delivered,
                    },
                    Ok(Ok(())),
                )
            },
        }
    }

    /// A non-blocking receive: the channel afterwards, and what the consumer is told.
    pub open spec fn recv(self) -> (Self, Result<Result<T, RecvErrorNoWait>, Fault>) {
        match recv_plan(self.word, self.len()) {
            RecvPlan::Closed => (self, Ok(Err(RecvErrorNoWait::Closed))),
            RecvPlan::Empty => (self, Ok(Err(RecvErrorNoWait::Empty))),
            RecvPlan::Fault(fault) => (self, Err(fault)),
            RecvPlan::Take { slot, next } => match self.slots[slot as int] {
                None => (self, Err(Fault::Corrupted)),
                Some(value) => (
                    Channel {
                        word: Fields { head: next, ..self.word },
                        slots: self.slots.update(slot as int, None),
                        accepted: self.accepted,
                        delivered: self.delivered + 1,
                    },
                    Ok(Ok(value)),
                ),
            },
        }
    }

    /// Closing the channel, from either side.
    pub open spec fn close(self) -> Self {
        Channel { word: Fields { closed: true, ..self.word }, ..self }
    }

    /// The channel after `op`.
    pub open spec fn apply(self, op: Op<T>) -> Self {
        match op {
            Op::Send(value) => self.send(value).0,
            Op::Recv => self.recv().0,
            Op::Close => self.close(),
        }
    }

    /// The channel after every one of `ops`, first to last.
    pub open spec fn run(self, ops: Seq<Op<T>>) -> Self
        decreases ops.len(),
    {
        if ops.len() == 0 {
            self
        } else {
            self.run(ops.drop_last()).apply(ops.last())
        }
    }

    /// The values that the sends among `ops` got accepted, first to last.
    pub open spec fn sent(self, ops: Seq<Op<T>>) -> Seq<T>
        decreases ops.len(),
    {
        if ops.len() == 0 {
            Seq::empty()
        } else {
            let before = self.run(ops.drop_last());
            let earlier = self.sent(ops.drop_last());
            match ops.last() {
                Op::Send(value) => if before.send(value).1 is Ok && before.send(value).1->Ok_0
                    is Ok {
                    earlier.push(value)
                } else {
                    earlier
                },
                _ => earlier,
            }
        }
    }

    /// The values that the receives among `ops` handed out, first to last.
    pub open spec fn received(self, ops: Seq<Op<T>>) -> Seq<T>
        decreases ops.len(),
    {
        if ops.len() == 0 {
            Seq::empty()
        } else {
            let before = self.run(ops.drop_last());
            let earlier = self.received(ops.drop_last());
            match ops.last() {
                Op::Recv => match before.recv().1 {
                    Ok(Ok(value)) => earlier.push(value),
                    _ => earlier,
                },
                _ => earlier,
            }
        }
    }
}

/// A channel over a buffer that can back one starts out well-formed and empty.
pub proof fn lemma_fresh<T>(len: usize)
    requires
        capacity_ok(len),
    ensures
        Channel::<T>::fresh(len).wf(),
        Channel::<T>::fresh(len).len() == len,
        Channel::<T>::fresh(len).queue() =~= Seq::<T>::empty(),
{
}

/// Capacity: a buffer of `len` slots never holds more than `len - 1` values in flight.
pub proof fn lemma_capacity<T>(channel: Channel<T>)
    requires
        channel.wf(),
    ensures
        0 <= channel.in_flight() <= channel.len() - 1,
        channel.queue().len() == channel.in_flight(),
{
}

/// A send on a well-formed channel never faults and leaves the channel well-formed.  It
/// is refused as closed exactly when the channel is closed, and as full exactly when the
/// channel is open with `len - 1` values in flight; a refusal changes nothing and hands
/// back the very value that was offered.  Otherwise the value is accepted and joins the
/// queue at its end.
pub proof fn lemma_send<T>(channel: Channel<T>, value: T)
    requires
        channel.wf(),
    ensures
        ({
            let (after, told) = channel.send(value);
            &&& after.wf()
            &&& after.len() == channel.len()
            &&& told is Ok
            &&& told == Ok::<_, Fault>(Err::<(), _>(SendErrorNoWait::Closed(value)))
                <==> channel.word.closed
            &&& told == Ok::<_, Fault>(Err::<(), _>(SendErrorNoWait::Full(value)))
                <==> !channel.word.closed && channel.in_flight() == channel.len() - 1
            &&& told == Ok::<Result<(), SendErrorNoWait<T>>, Fault>(Ok(())) <==> !channel.word.closed
                && channel.in_flight() < channel.len() - 1
            &&& told matches Ok(Err(_)) ==> after == channel
            &&& told matches Ok(Ok(_)) ==> after.queue() == channel.queue().push(value)
                && after.accepted == channel.accepted.push(value) && after.delivered
                == channel.delivered && after.word.closed == channel.word.closed
        }),
{
    let len = channel.len();
    lemma_ring_full(channel.word.head, channel.word.tail, len);
    let (after, told) = channel.send(value);
    if !channel.word.closed && !ring_full(channel.word.head, channel.word.tail, len) {
        let head = channel.word.head;
        let flight = channel.in_flight();
        assert(ring_at(head, flight, len) == channel.word.tail);
        assert(channel.slots[ring_at(head, flight, len)] is None);
        assert forall|k: int| 0 <= k < len implies #[trigger] after.slots[ring_at(head, k, len)]
            == if k < after.in_flight() {
            Some(after.accepted[after.delivered + k])
        } else {
            None
        } by {
            assert(channel.slots[ring_at(head, k, len)] == if k < flight {
                Some(channel.accepted[channel.delivered + k])
            } else {
                None
            });
        }
        assert(after.queue() =~= channel.queue().push(value));
    }
}

/// A receive on a well-formed channel never faults and leaves the channel well-formed.
/// With a value in flight it hands out the oldest one, which leaves the queue; closed or
/// not makes no difference then.  With none in flight it changes nothing, and reports
/// closed exactly when the channel is closed and empty otherwise.
pub proof fn lemma_recv<T>(channel: Channel<T>)
    requires
        channel.wf(),
    ensures
        ({
            let (after, told) = channel.recv();
            &&& after.wf()
            &&& after.len() == channel.len()
            &&& after.word.closed == channel.word.closed
            &&& told is Ok
            &&& (told matches Ok(Ok(_))) <==> channel.in_flight() > 0
            &&& told == Ok::<_, Fault>(Err::<T, _>(RecvErrorNoWait::Closed)) <==> channel.in_flight()
                == 0 && channel.word.closed
            &&& told == Ok::<_, Fault>(Err::<T, _>(RecvErrorNoWait::Empty)) <==> channel.in_flight()
                == 0 && !channel.word.closed
            &&& told matches Ok(Err(_)) ==> after == channel
            &&& told matches Ok(Ok(value)) ==> value == channel.queue().first() && after.queue()
                == channel.queue().drop_first() && value == channel.accepted[channel.delivered as int]
                && after.accepted == channel.accepted && after.delivered == channel.delivered + 1
        }),
{
    let len = channel.len();
    let head = channel.word.head;
    let flight = channel.in_flight();
    let (after, told) = channel.recv();
    assert(channel.slots[ring_at(head, 0, len)] == if 0 < flight {
        Some(channel.accepted[channel.delivered as int])
    } else {
        None
    });
    if flight > 0 {
        let next = next_index(head, len);
        assert forall|k: int| 0 <= k < len implies #[trigger] after.slots[ring_at(next, k, len)]
            == if k < after.in_flight() {
            Some(after.accepted[after.delivered + k])
        } else {
            None
        } by {
            if k == len - 1 {
                assert(ring_at(next, k, len) == head);
            } else {
                assert(ring_at(next, k, len) == ring_at(head, k + 1, len));
                assert(channel.slots[ring_at(head, k + 1, len)] == if k + 1 < flight {
                    Some(channel.accepted[channel.delivered + k + 1])
                } else {
                    None
                });
            }
        }
        assert(after.queue() =~= channel.queue().drop_first());
    }
}

/// Closing keeps the channel well-formed and touches neither the queue nor the history.
pub proof fn lemma_close<T>(channel: Channel<T>)
    requires
        channel.wf(),
    ensures
        channel.close().wf(),
        channel.close().word.closed,
        channel.close().queue() == channel.queue(),
        channel.close().accepted == channel.accepted,
        channel.close().delivered == channel.delivered,
        channel.close().len() == channel.len(),
{
    let after = channel.close();
    assert forall|k: int| 0 <= k < after.len() implies #[trigger] after.slots[ring_at(
        after.word.head,
        k,
        after.len(),
    )] == if k < after.in_flight() {
        Some(after.accepted[after.delivered + k])
    } else {
        None
    } by {
        assert(channel.slots[ring_at(channel.word.head, k, channel.len())] == if k
            < channel.in_flight() {
            Some(channel.accepted[channel.delivered + k])
        } else {
            None
        });
    }
}

/// Tearing down a channel that is closed, or that never had an endpoint, destroys the
/// values in flight and nothing else: the plan starts at the head and counts exactly the
/// values in flight, and every slot on its way holds one.
pub proof fn lemma_reclaim<T>(channel: Channel<T>)
    requires
        channel.wf(),
        channel.word.closed || !(channel.word.tx_set || channel.word.rx_set),
    ensures
        reclaim_plan(channel.word, channel.len()) == Ok::<_, Fault>(
            (channel.word.head, channel.in_flight() as usize),
        ),
        forall|k: int|
            0 <= k < channel.in_flight() ==> (#[trigger] channel.slots[ring_at(
                channel.word.head,
                k,
                channel.len(),
            )]) == Some(channel.accepted[channel.delivered + k]),
{
}

/// Whatever an endpoint does, a well-formed channel stays well-formed over the same
/// buffer.
pub proof fn lemma_apply<T>(channel: Channel<T>, op: Op<T>)
    requires
        channel.wf(),
    ensures
        channel.apply(op).wf(),
        channel.apply(op).len() == channel.len(),
{
    match op {
        Op::Send(value) => lemma_send(channel, value),
        Op::Recv => lemma_recv(channel),
        Op::Close => lemma_close(channel),
    }
}

/// Closure is for good: no use of a closed channel opens it again, every send on it is
/// refused as closed, and nothing joins its queue.
pub proof fn lemma_closed_stays<T>(channel: Channel<T>, op: Op<T>)
    requires
        channel.wf(),
        channel.word.closed,
    ensures
        channel.apply(op).word.closed,
        channel.apply(op).accepted == channel.accepted,
        op matches Op::Send(value) ==> channel.send(value).1 == Ok::<_, Fault>(
            Err::<(), _>(SendErrorNoWait::Closed(value)),
        ),
{
    match op {
        Op::Send(value) => lemma_send(channel, value),
        Op::Recv => lemma_recv(channel),
        Op::Close => lemma_close(channel),
    }
}

/// Once a receive has reported closed, every later receive reports closed, whatever
/// happens in between.
pub proof fn lemma_closed_is_final<T>(channel: Channel<T>, ops: Seq<Op<T>>)
    requires
        channel.wf(),
        channel.recv().1 == Ok::<_, Fault>(Err::<T, _>(RecvErrorNoWait::Closed)),
    ensures
        channel.run(ops).wf(),
        channel.run(ops).word.closed,
        channel.run(ops).in_flight() == 0,
        channel.run(ops).recv().1 == Ok::<_, Fault>(Err::<T, _>(RecvErrorNoWait::Closed)),
    decreases ops.len(),
{
    lemma_recv(channel);
    if ops.len() > 0 {
        lemma_closed_is_final(channel, ops.drop_last());
        let before = channel.run(ops.drop_last());
        lemma_closed_stays(before, ops.last());
        lemma_apply(before, ops.last());
        lemma_recv(before);
        lemma_recv(channel.run(ops));
    }
}

/// Conservation and ordering: start from an empty channel and use it in any way.  Then
/// the values handed out so far are the first of the values accepted so far, in the same
/// order, each one once; and the queue holds the rest, in the same order.
pub proof fn lemma_fifo<T>(len: usize, ops: Seq<Op<T>>)
    requires
        capacity_ok(len),
    ensures
        ({
            let start = Channel::<T>::fresh(len);
            let sent = start.sent(ops);
            let received = start.received(ops);
            &&& start.run(ops).wf()
            &&& start.run(ops).len() == len
            &&& received.len() <= sent.len()
            &&& received == sent.take(received.len() as int)
            &&& start.run(ops).queue() == sent.skip(received.len() as int)
            &&& start.run(ops).accepted == sent
            &&& start.run(ops).delivered == received.len()
        }),
    decreases ops.len(),
{
    let start = Channel::<T>::fresh(len);
    lemma_fresh::<T>(len);
    if ops.len() == 0 {
        assert(start.sent(ops).take(0) =~= start.received(ops));
    } else {
        lemma_fifo::<T>(len, ops.drop_last());
        let before = start.run(ops.drop_last());
        let sent = start.sent(ops.drop_last());
        let received = start.received(ops.drop_last());
        match ops.last() {
            Op::Send(value) => {
                lemma_send(before, value);
                assert(start.sent(ops).take(received.len() as int) =~= sent.take(
                    received.len() as int,
                ));
            },
            Op::Recv => {
                lemma_recv(before);
                if before.in_flight() > 0 {
                    assert(sent.take(received.len() as int + 1) =~= sent.take(received.len() as int).push(
                        sent[received.len() as int],
                    ));
                }
            },
            Op::Close => {
                lemma_close(before);
            },
        }
    }
}

} // verus!
