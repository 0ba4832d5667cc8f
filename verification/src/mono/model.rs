//! The rendezvous channel as a queue of at most one value: what the decisions of
//! [`flags`](super::flags) add up to when they are carried out one after the other.

use crate::error::{Fault, RecvErrorNoWait, SendErrorNoWait};
use crate::mono::flags::{reclaim_plan, recv_plan, send_plan, Fields, RecvPlan, SendPlan};
use vstd::prelude::*;

verus! {

/// A channel at one moment.
pub ghost struct Channel<T> {
    /// What the state byte says.
    pub word: Fields,
    /// What the slot holds.
    pub slot: Option<T>,
    /// Every value that a send has accepted so far, oldest first.
    pub accepted: Seq<T>,
    /// How many of them a receive has handed out.
    pub delivered: nat,
}

/// One use of a channel by one of its endpoints.
pub ghost enum Op<T> {
    Send(T),
    Recv,
    Close,
}

impl<T> Channel<T> {
    /// The number of values accepted and not yet handed out.
    pub open spec fn in_flight(self) -> int {
        self.accepted.len() - self.delivered
    }

    /// The values accepted and not yet handed out, oldest first.
    pub open spec fn queue(self) -> Seq<T> {
        self.accepted.skip(self.delivered as int)
    }

    /// The byte, the slot and the history agree: the full flag is up exactly while one
    /// value is in flight, and the slot then holds that value and is empty otherwise.
    pub open spec fn wf(self) -> bool {
        &&& self.delivered <= self.accepted.len()
        &&& self.in_flight() == if self.word.full {
            1int
        } else {
            0int
        }
        &&& self.slot == if self.word.full {
            Some(self.accepted[self.delivered as int])
        } else {
            None
        }
    }

    /// The channel as a new link has it: open, empty, no endpoint attached.
    pub open spec fn fresh() -> Self {
        Channel {
            word: Fields { closed: false, full: false, tx_set: false, rx_set: false },
            slot: None,
            accepted: Seq::empty(),
            delivered: 0,
        }
    }

    /// A non-blocking send of `value`: the channel afterwards, and what the producer is
    /// told.
    pub open spec fn send(self, value: T) -> (Self, Result<Result<(), SendErrorNoWait<T>>, Fault>) {
        match send_plan(self.word) {
            SendPlan::Closed => (self, Ok(Err(SendErrorNoWait::Closed(value)))),
            SendPlan::Full => (self, Ok(Err(SendErrorNoWait::Full(value)))),
            SendPlan::Write => if self.slot is Some {
                (self, Err(Fault::Corrupted))
            } else {
                (
                    Channel {
                        word: Fields { full: true, ..self.word },
                        slot: Some(value),
                        accepted: self.accepted.push(value),
                        delivered: self.delivered,
                    },
                    Ok(Ok(())),
                )
            },
        }
    }

    /// A non-blocking receive: the channel afterwards, and what the consumer is told.
    pub open spec fn recv(self) -> (Self, Result<Result<T, RecvErrorNoWait>, Fault>) {
        match recv_plan(self.word) {
            RecvPlan::Closed => (self, Ok(Err(RecvErrorNoWait::Closed))),
            RecvPlan::Empty => (self, Ok(Err(RecvErrorNoWait::Empty))),
            RecvPlan::Take => match self.slot {
                None => (self, Err(Fault::Corrupted)),
                Some(value) => (
                    Channel {
                        word: Fields { full: false, ..self.word },
                        slot: None,
                        accepted: self.accepted,
                        delivered: self.delivered + 1,
                    },
                    Ok(Ok(value)),
                ),
            },
        }
    }

    /// Closing the channel, from either side.
    pub open spec fn close(self) -> Self {
        Channel { word: Fields { closed: true, ..self.word }, ..self }
    }

    /// The channel after `op`.
    pub open spec fn apply(self, op: Op<T>) -> Self {
        match op {
            Op::Send(value) => self.send(value).0,
            Op::Recv => self.recv().0,
            Op::Close => self.close(),
        }
    }

    /// The channel after every one of `ops`, first to last.
    pub open spec fn run(self, ops: Seq<Op<T>>) -> Self
        decreases ops.len(),
    {
        if ops.len() == 0 {
            self
        } else {
            self.run(ops.drop_last()).apply(ops.last())
        }
    }

    /// The values that the sends among `ops` got accepted, first to last.
    pub open spec fn sent(self, ops: Seq<Op<T>>) -> Seq<T>
        decreases ops.len(),
    {
        if ops.len() == 0 {
            Seq::empty()
        } else {
            let before = self.run(ops.drop_last());
            let earlier = self.sent(ops.drop_last());
            match ops.last() {
                Op::Send(value) => if before.send(value).1 is Ok && before.send(value).1->Ok_0
                    is Ok {
                    earlier.push(value)
                } else {
                    earlier
                },
                _ => earlier,
            }
        }
    }

    /// The values that the receives among `ops` handed out, first to last.
    pub open spec fn received(self, ops: Seq<Op<T>>) -> Seq<T>
        decreases ops.len(),
    {
        if ops.len() == 0 {
            Seq::empty()
        } else {
            let before = self.run(ops.drop_last());
            let earlier = self.received(ops.drop_last());
            match ops.last() {
                Op::Recv => match before.recv().1 {
                    Ok(Ok(value)) => earlier.push(value),
                    _ => earlier,
                },
                _ => earlier,
            }
        }
    }
}

/// A send on a well-formed channel never faults and leaves the channel well-formed.  It
/// is refused as closed exactly when the channel is closed, and as full exactly when the
/// channel is open with its slot taken; a refusal changes nothing and hands back the very
/// value that was offered.  Otherwise the value is accepted and becomes the queue.
pub proof fn lemma_send<T>(channel: Channel<T>, value: T)
    requires
        channel.wf(),
    ensures
        ({
            let (after, told) = channel.send(value);
            &&& after.wf()
            &&& told is Ok
            &&& told == Ok::<_, Fault>(Err::<(), _>(SendErrorNoWait::Closed(value)))
                <==> channel.word.closed
            &&& told == Ok::<_, Fault>(Err::<(), _>(SendErrorNoWait::Full(value)))
                <==> !channel.word.closed && channel.in_flight() == 1
            &&& told == Ok::<Result<(), SendErrorNoWait<T>>, Fault>(Ok(())) <==> !channel.word.closed
                && channel.in_flight() == 0
            &&& told matches Ok(Err(_)) ==> after == channel
            &&& told matches Ok(Ok(_)) ==> after.queue() == channel.queue().push(value)
                && after.accepted == channel.accepted.push(value) && after.delivered
                == channel.delivered && after.word.closed == channel.word.closed
        }),
{
    let (after, told) = channel.send(value);
    if told matches Ok(Ok(_)) {
        assert(after.queue() =~= channel.queue().push(value));
    }
}

/// A receive on a well-formed channel never faults and leaves the channel well-formed.
/// With a value in flight it hands it out, closed or not.  With none in flight it changes
/// nothing, and reports closed exactly when the channel is closed and empty otherwise.
pub proof fn lemma_recv<T>(channel: Channel<T>)
    requires
        channel.wf(),
    ensures
        ({
            let (after, told) = channel.recv();
            &&& after.wf()
            &&& after.word.closed == channel.word.closed
            &&& told is Ok
            &&& (told matches Ok(Ok(_))) <==> channel.in_flight() > 0
            &&& told == Ok::<_, Fault>(Err::<T, _>(RecvErrorNoWait::Closed)) <==> channel.in_flight()
                == 0 && channel.word.closed
            &&& told == Ok::<_, Fault>(Err::<T, _>(RecvErrorNoWait::Empty)) <==> channel.in_flight()
                == 0 && !channel.word.closed
            &&& told matches Ok(Err(_)) ==> after == channel
            &&& told matches Ok(Ok(value)) ==> value == channel.queue().first() && after.queue()
                == channel.queue().drop_first() && value == channel.accepted[channel.delivered as int]
                && after.accepted == channel.accepted && after.delivered == channel.delivered + 1
        }),
{
    let (after, told) = channel.recv();
    if told matches Ok(Ok(_)) {
        assert(after.queue() =~= channel.queue().drop_first());
    }
}

/// Closing keeps the channel well-formed and touches neither the queue nor the history.
pub proof fn lemma_close<T>(channel: Channel<T>)
    requires
        channel.wf(),
    ensures
        channel.close().wf(),
        channel.close().word.closed,
        channel.close().queue() == channel.queue(),
        channel.close().accepted == channel.accepted,
        channel.close().delivered == channel.delivered,
{
}

/// Capacity: never more than one value is in flight.
pub proof fn lemma_capacity<T>(channel: Channel<T>)
    requires
        channel.wf(),
    ensures
        0 <= channel.in_flight() <= 1,
        channel.queue().len() == channel.in_flight(),
{
}

/// Tearing down a channel that is closed, or that never had an endpoint, destroys the
/// value in flight, if there is one, and nothing else.
pub proof fn lemma_reclaim<T>(channel: Channel<T>)
    requires
        channel.wf(),
        channel.word.closed || !(channel.word.tx_set || channel.word.rx_set),
    ensures
        reclaim_plan(channel.word) == Ok::<_, Fault>(channel.in_flight() as usize),
        channel.in_flight() == 1 ==> channel.slot == Some(
            channel.accepted[channel.delivered as int],
        ),
{
}

/// Whatever an endpoint does, a well-formed channel stays well-formed.
pub proof fn lemma_apply<T>(channel: Channel<T>, op: Op<T>)
    requires
        channel.wf(),
    ensures
        channel.apply(op).wf(),
{
    match op {
        Op::Send(value) => lemma_send(channel, value),
        Op::Recv => lemma_recv(channel),
        Op::Close => lemma_close(channel),
    }
}

/// Closure is for good: no use of a closed channel opens it again, every send on it is
/// refused as closed, and nothing joins its queue.
pub proof fn lemma_closed_stays<T>(channel: Channel<T>, op: Op<T>)
    requires
        channel.wf(),
        channel.word.closed,
    ensures
        channel.apply(op).word.closed,
        channel.apply(op).accepted == channel.accepted,
        op matches Op::Send(value) ==> channel.send(value).1 == Ok::<_, Fault>(
            Err::<(), _>(SendErrorNoWait::Closed(value)),
        ),
{
    match op {
        Op::Send(value) => lemma_send(channel, value),
        Op::Recv => lemma_recv(channel),
        Op::Close => lemma_close(channel),
    }
}

/// Once a receive has reported closed, every later receive reports closed, whatever
/// happens in between.
pub proof fn lemma_closed_is_final<T>(channel: Channel<T>, ops: Seq<Op<T>>)
    requires
        channel.wf(),
        channel.recv().1 == Ok::<_, Fault>(Err::<T, _>(RecvErrorNoWait::Closed)),
    ensures
        channel.run(ops).wf(),
        channel.run(ops).word.closed,
        channel.run(ops).in_flight() == 0,
        channel.run(ops).recv().1 == Ok::<_, Fault>(Err::<T, _>(RecvErrorNoWait::Closed)),
    decreases ops.len(),
{
    lemma_recv(channel);
    if ops.len() > 0 {
        lemma_closed_is_final(channel, ops.drop_last());
        let before = channel.run(ops.drop_last());
        lemma_closed_stays(before, ops.last());
        lemma_apply(before, ops.last());
        lemma_recv(before);
        lemma_recv(channel.run(ops));
    }
}

/// Conservation and ordering: start from a new channel and use it in any way.  Then the
/// values handed out so far are the first of the values accepted so far, in the same
/// order, each one once; and the queue holds the rest.
pub proof fn lemma_fifo<T>(ops: Seq<Op<T>>)
    ensures
        ({
            let start = Channel::<T>::fresh();
            let sent = start.sent(ops);
            let received = start.received(ops);
            &&& start.run(ops).wf()
            &&& received.len() <= sent.len()
            &&& received == sent.take(received.len() as int)
            &&& start.run(ops).queue() == sent.skip(received.len() as int)
            &&& start.run(ops).accepted == sent
            &&& start.run(ops).delivered == received.len()
        }),
    decreases ops.len(),
{
    let start = Channel::<T>::fresh();
    if ops.len() == 0 {
        assert(start.sent(ops).take(0) =~= start.received(ops));
    } else {
        lemma_fifo::<T>(ops.drop_last());
        let before = start.run(ops.drop_last());
        let sent = start.sent(ops.drop_last());
        let received = start.received(ops.drop_last());
        match ops.last() {
            Op::Send(value) => {
                lemma_send(before, value);
                assert(start.sent(ops).take(received.len() as int) =~= sent.take(
                    received.len() as int,
                ));
            },
            Op::Recv => {
                lemma_recv(before);
                if before.in_flight() > 0 {
                    assert(sent.take(received.len() as int + 1) =~= sent.take(
                        received.len() as int,
                    ).push(sent[received.len() as int]));
                }
            },
            Op::Close => {
                lemma_close(before);
            },
        }
    }
}

} // verus!
