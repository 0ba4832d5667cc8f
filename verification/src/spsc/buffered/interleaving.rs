//! The buffered channel with its two endpoints at work at the same time.
//!
//! A send is three steps: decide on the word that was read, write the slot, publish by
//! moving the tail.  A receive is three steps as well: decide, empty the slot, hand it
//! back by moving the head.  Between two steps of one endpoint the other may take any of
//! its own.  The laws below say that this does no harm: the one producer is the only one
//! to move the tail and the one consumer the only one to move the head, so what either
//! has decided stays right until it has carried it out.

use crate::spsc::buffered::bits::Fields;
use crate::spsc::buffered::model::Channel;
use crate::spsc::buffered::ring::{capacity_ok, recv_plan, send_plan, RecvPlan, SendPlan};
use crate::utils::ring::{lemma_ring_full, next_index, ring_at, ring_distance};
use vstd::prelude::*;

verus! {

/// What the producer holds between deciding to write and having published.
pub ghost struct Sending<T> {
    /// The slot to write.
    pub slot: usize,
    /// Where the tail goes afterwards.
    pub next: usize,
    /// The value on its way.
    pub value: T,
    /// The slot has been written.
    pub written: bool,
}

/// What the consumer holds between deciding to take and having handed the slot back.
pub ghost struct Receiving<T> {
    /// The slot to empty.
    pub slot: usize,
    /// Where the head goes afterwards.
    pub next: usize,
    /// The value, once it is out of the slot.
    pub taken: Option<T>,
}

/// A channel and what its endpoints are in the middle of.
pub ghost struct Shared<T> {
    /// The word, the slots and the history, where a value counts as accepted once it is
    /// published and as handed out once its slot is handed back.
    pub channel: Channel<T>,
    pub sending: Option<Sending<T>>,
    pub receiving: Option<Receiving<T>>,
}

/// One step of one endpoint.
pub ghost enum Step<T> {
    /// The producer reads the word and decides what to do with this value.
    SendBegin(T),
    /// The producer writes its slot.
    SendWrite,
    /// The producer moves the tail.
    SendPublish,
    /// The consumer reads the word and decides.
    RecvBegin,
    /// The consumer empties its slot.
    RecvTake,
    /// The consumer moves the head.
    RecvRelease,
    /// Either endpoint closes the channel.
    Close,
}

impl<T> Shared<T> {
    /// A new channel, with both endpoints idle.
    pub open spec fn fresh(len: usize) -> Self {
        Shared { channel: Channel::fresh(len), sending: None, receiving: None }
    }

    /// What the slot `steps` steps after the head holds.
    pub open spec fn expected(self, steps: int) -> Option<T> {
        let flight = self.channel.in_flight();
        if steps < flight {
            if steps == 0 && self.receiving is Some && self.receiving->0.taken is Some {
                None
            } else {
                Some(self.channel.accepted[self.channel.delivered + steps])
            }
        } else if steps == flight && self.sending is Some && self.sending->0.written {
            Some(self.sending->0.value)
        } else {
            None
        }
    }

    /// The word, the slots, the history and the endpoints agree.  A producer at work
    /// holds the slot at the tail and there is room for it; a consumer at work holds the
    /// slot at the head and there is a value for it.  The slots hold the values in
    /// flight, less the one that the consumer has just moved out, plus the one that the
    /// producer has just written.
    pub open spec fn wf(self) -> bool {
        let channel = self.channel;
        let len = channel.len();
        &&& channel.slots.len() <= usize::MAX
        &&& capacity_ok(len)
        &&& channel.word.head < len
        &&& channel.word.tail < len
        &&& channel.delivered <= channel.accepted.len()
        &&& channel.in_flight() == ring_distance(channel.word.head, channel.word.tail, len)
        &&& self.sending matches Some(sending) ==> {
            &&& sending.slot == channel.word.tail
            &&& sending.next == next_index(channel.word.tail, len)
            &&& channel.in_flight() < len - 1
        }
        &&& self.receiving matches Some(receiving) ==> {
            &&& receiving.slot == channel.word.head
            &&& receiving.next == next_index(channel.word.head, len)
            &&& channel.in_flight() >= 1
            &&& receiving.taken matches Some(value) ==> value
                == channel.accepted[channel.delivered as int]
        }
        &&& forall|k: int|
            0 <= k < len ==> channel.slots[ring_at(channel.word.head, k, len)]
                == #[trigger] self.expected(k)
    }

    /// `step` is one that an endpoint can take now: each endpoint takes its three
    /// steps in order and starts over only when it is through.
    pub open spec fn enabled(self, step: Step<T>) -> bool {
        match step {
            Step::SendBegin(_) => self.sending is None,
            Step::SendWrite => self.sending is Some && !self.sending->0.written,
            Step::SendPublish => self.sending is Some && self.sending->0.written,
            Step::RecvBegin => self.receiving is None,
            Step::RecvTake => self.receiving is Some && self.receiving->0.taken is None,
            Step::RecvRelease => self.receiving is Some && self.receiving->0.taken is Some,
            Step::Close => true,
        }
    }

    /// The channel and its endpoints after `step`, unchanged where no endpoint can take
    /// it.
    pub open spec fn apply(self, step: Step<T>) -> Self {
        let channel = self.channel;
        if !self.enabled(step) {
            self
        } else {
            match step {
                Step::SendBegin(value) => match send_plan(channel.word, channel.len()) {
                    SendPlan::Write { slot, next } => Shared {
                        sending: Some(Sending { slot, next, value, written: false }),
                        ..self
                    },
                    _ => self,
                },
                Step::SendWrite => {
                    let sending = self.sending->0;
                    Shared {
                        channel: Channel {
                            slots: channel.slots.update(sending.slot as int, Some(sending.value)),
                            ..channel
                        },
                        sending: Some(Sending { written: true, ..sending }),
                        ..self
                    }
                },
                Step::SendPublish => {
                    let sending = self.sending->0;
                    Shared {
                        channel: Channel {
                            word: Fields { tail: sending.next, ..channel.word },
                            accepted: channel.accepted.push(sending.value),
                            ..channel
                        },
                        sending: None,
                        ..self
                    }
                },
                Step::RecvBegin => match recv_plan(channel.word, channel.len()) {
                    RecvPlan::Take { slot, next } => Shared {
                        receiving: Some(Receiving { slot, next, taken: None }),
                        ..self
                    },
                    _ => self,
                },
                Step::RecvTake => {
                    let receiving = self.receiving->0;
                    Shared {
                        channel: Channel {
                            slots: channel.slots.update(receiving.slot as int, None),
                            ..channel
                        },
                        receiving: Some(
                            Receiving {
                                taken: channel.slots[receiving.slot as int],
                                ..receiving
                            },
                        ),
                        ..self
                    }
                },
                Step::RecvRelease => {
                    let receiving = self.receiving->0;
                    Shared {
                        channel: Channel {
                            word: Fields { head: receiving.next, ..channel.word },
                            delivered: channel.delivered + 1,
                            ..channel
                        },
                        receiving: None,
                        ..self
                    }
                },
                Step::Close => Shared { channel: channel.close(), ..self },
            }
        }
    }

    /// The channel and its endpoints after every one of `steps`, first to last.
    pub open spec fn run(self, steps: Seq<Step<T>>) -> Self
        decreases steps.len(),
    {
        if steps.len() == 0 {
            self
        } else {
            self.run(steps.drop_last()).apply(steps.last())
        }
    }
}

/// With both endpoints idle, the channel is well-formed here exactly when it is
/// well-formed as a queue.
pub proof fn lemma_idle<T>(shared: Shared<T>)
    requires
        shared.sending is None,
        shared.receiving is None,
    ensures
        shared.wf() <==> shared.channel.wf(),
{
    let channel = shared.channel;
    let len = channel.len();
    if shared.wf() {
        assert forall|k: int| 0 <= k < len implies #[trigger] channel.slots[ring_at(
            channel.word.head,
            k,
            len,
        )] == if k < channel.in_flight() {
            Some(channel.accepted[channel.delivered + k])
        } else {
            None
        } by {
            assert(channel.slots[ring_at(channel.word.head, k, len)] == shared.expected(k));
        }
    }
    if channel.wf() {
        assert forall|k: int| 0 <= k < len implies channel.slots[ring_at(
            channel.word.head,
            k,
            len,
        )] == #[trigger] shared.expected(k) by {
            assert(channel.slots[ring_at(channel.word.head, k, len)] == if k
                < channel.in_flight() {
                Some(channel.accepted[channel.delivered + k])
            } else {
                None
            });
        }
    }
}

/// The producer finds the slot that it decided to write empty, whatever the consumer
/// has done since the decision: no value is overwritten.
pub proof fn lemma_write_finds_slot_empty<T>(shared: Shared<T>)
    requires
        shared.wf(),
        shared.enabled(Step::SendWrite),
    ensures
        shared.channel.slots[shared.sending->0.slot as int] is None,
{
    let channel = shared.channel;
    let flight = channel.in_flight();
    assert(ring_at(channel.word.head, flight, channel.len()) == channel.word.tail);
    assert(channel.slots[ring_at(channel.word.head, flight, channel.len())] == shared.expected(
        flight,
    ));
}

/// The consumer finds in the slot that it decided to empty the oldest value in flight,
/// whatever the producer has done since the decision: the values leave in the order in
/// which they were accepted, each one once.
pub proof fn lemma_take_finds_oldest<T>(shared: Shared<T>)
    requires
        shared.wf(),
        shared.enabled(Step::RecvTake),
    ensures
        shared.channel.slots[shared.receiving->0.slot as int] == Some(
            shared.channel.accepted[shared.channel.delivered as int],
        ),
        shared.apply(Step::RecvTake).receiving->0.taken == Some(
            shared.channel.accepted[shared.channel.delivered as int],
        ),
{
    let channel = shared.channel;
    assert(channel.slots[ring_at(channel.word.head, 0, channel.len())] == shared.expected(0));
}

/// Whatever step an endpoint takes, at whatever moment, the channel stays well-formed
/// over the same buffer, a closed channel stays closed, and nothing accepted is
/// forgotten.
pub proof fn lemma_step<T>(shared: Shared<T>, step: Step<T>)
    requires
        shared.wf(),
    ensures
        shared.apply(step).wf(),
        shared.apply(step).channel.len() == shared.channel.len(),
        shared.channel.word.closed ==> shared.apply(step).channel.word.closed,
        shared.channel.accepted.is_prefix_of(shared.apply(step).channel.accepted),
        shared.channel.delivered <= shared.apply(step).channel.delivered,
{
    let channel = shared.channel;
    let len = channel.len();
    let head = channel.word.head;
    let tail = channel.word.tail;
    let flight = channel.in_flight();
    let after = shared.apply(step);
    lemma_ring_full(head, tail, len);
    if shared.enabled(step) {
        match step {
            Step::SendBegin(value) => {
                assert forall|k: int| 0 <= k < len implies after.channel.slots[ring_at(
                    head,
                    k,
                    len,
                )] == #[trigger] after.expected(k) by {
                    assert(channel.slots[ring_at(head, k, len)] == shared.expected(k));
                }
            },
            Step::SendWrite => {
                assert(ring_at(head, flight, len) == tail);
                assert forall|k: int| 0 <= k < len implies after.channel.slots[ring_at(
                    head,
                    k,
                    len,
                )] == #[trigger] after.expected(k) by {
                    assert(channel.slots[ring_at(head, k, len)] == shared.expected(k));
                }
            },
            Step::SendPublish => {
                assert forall|k: int| 0 <= k < len implies after.channel.slots[ring_at(
                    head,
                    k,
                    len,
                )] == #[trigger] after.expected(k) by {
                    assert(channel.slots[ring_at(head, k, len)] == shared.expected(k));
                }
            },
            Step::RecvBegin => {
                assert forall|k: int| 0 <= k < len implies after.channel.slots[ring_at(
                    head,
                    k,
                    len,
                )] == #[trigger] after.expected(k) by {
                    assert(channel.slots[ring_at(head, k, len)] == shared.expected(k));
                }
            },
            Step::RecvTake => {
                lemma_take_finds_oldest(shared);
                assert forall|k: int| 0 <= k < len implies after.channel.slots[ring_at(
                    head,
                    k,
                    len,
                )] == #[trigger] after.expected(k) by {
                    assert(channel.slots[ring_at(head, k, len)] == shared.expected(k));
                }
            },
            Step::RecvRelease => {
                let next = next_index(head, len);
                assert forall|k: int| 0 <= k < len implies after.channel.slots[ring_at(
                    next,
                    k,
                    len,
                )] == #[trigger] after.expected(k) by {
                    if k == len - 1 {
                        assert(ring_at(next, k, len) == head);
                        assert(channel.slots[ring_at(head, 0, len)] == shared.expected(0));
                    } else {
                        assert(ring_at(next, k, len) == ring_at(head, k + 1, len));
                        assert(channel.slots[ring_at(head, k + 1, len)] == shared.expected(
                            k + 1,
                        ));
                    }
                }
            },
            Step::Close => {
                assert forall|k: int| 0 <= k < len implies after.channel.slots[ring_at(
                    head,
                    k,
                    len,
                )] == #[trigger] after.expected(k) by {
                    assert(channel.slots[ring_at(head, k, len)] == shared.expected(k));
                }
            },
        }
    }
}

/// Start from a new channel and let the two endpoints take any steps in any order.  The
/// channel is well-formed after each of them.
pub proof fn lemma_run<T>(len: usize, steps: Seq<Step<T>>)
    requires
        capacity_ok(len),
    ensures
        Shared::<T>::fresh(len).run(steps).wf(),
        Shared::<T>::fresh(len).run(steps).channel.len() == len,
    decreases steps.len(),
{
    let start = Shared::<T>::fresh(len);
    if steps.len() == 0 {
        crate::spsc::buffered::model::lemma_fresh::<T>(len);
        lemma_idle(start);
    } else {
        lemma_run::<T>(len, steps.drop_last());
        lemma_step(start.run(steps.drop_last()), steps.last());
    }
}

/// A send whose three steps no step of the consumer comes between is the send of the
/// queue: it accepts the value exactly when [`Channel::send`] does and leaves the same
/// channel.
pub proof fn lemma_whole_send<T>(shared: Shared<T>, value: T)
    requires
        shared.wf(),
        shared.sending is None,
        shared.receiving is None,
    ensures
        ({
            let decided = shared.apply(Step::SendBegin(value));
            let through = decided.apply(Step::SendWrite).apply(Step::SendPublish);
            let (after, told) = shared.channel.send(value);
            &&& told matches Ok(Ok(_)) ==> decided.sending is Some && through.channel == after
                && through.sending is None
            &&& !(told matches Ok(Ok(_))) ==> decided == shared && after == shared.channel
        }),
{
    lemma_idle(shared);
    crate::spsc::buffered::model::lemma_send(shared.channel, value);
    let decided = shared.apply(Step::SendBegin(value));
    lemma_step(shared, Step::SendBegin(value));
    if decided.sending is Some {
        lemma_write_finds_slot_empty(decided);
    }
}

/// A receive whose three steps no step of the producer comes between is the receive of
/// the queue: it hands out a value exactly when [`Channel::recv`] does, the same value,
/// and leaves the same channel.
pub proof fn lemma_whole_recv<T>(shared: Shared<T>)
    requires
        shared.wf(),
        shared.sending is None,
        shared.receiving is None,
    ensures
        ({
            let decided = shared.apply(Step::RecvBegin);
            let emptied = decided.apply(Step::RecvTake);
            let through = emptied.apply(Step::RecvRelease);
            let (after, told) = shared.channel.recv();
            &&& told matches Ok(Ok(value)) ==> decided.receiving is Some
                && emptied.receiving->0.taken == Some(value) && through.channel == after
                && through.receiving is None
            &&& !(told matches Ok(Ok(_))) ==> decided == shared && after == shared.channel
        }),
{
    lemma_idle(shared);
    crate::spsc::buffered::model::lemma_recv(shared.channel);
    let decided = shared.apply(Step::RecvBegin);
    lemma_step(shared, Step::RecvBegin);
    if decided.receiving is Some {
        lemma_take_finds_oldest(decided);
        lemma_step(decided, Step::RecvTake);
    }
}

} // verus!
