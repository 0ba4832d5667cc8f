//! The rendezvous channel with its two endpoints at work at the same time.
//!
//! A send is three steps: decide on the byte that was read, write the slot, raise the
//! full flag.  A receive is three steps as well: decide, empty the slot, clear the full
//! flag.  Between two steps of one endpoint the other may take any of its own.  The laws
//! below say that this does no harm: only the producer raises the flag and only the
//! consumer clears it, so what either has decided stays right until it has carried it
//! out.

use crate::mono::flags::{recv_plan, send_plan, Fields, RecvPlan, SendPlan};
use crate::mono::model::Channel;
use vstd::prelude::*;

verus! {

/// What the producer holds between deciding to write and having raised the flag.
pub ghost struct Sending<T> {
    /// The value on its way.
    pub value: T,
    /// The slot has been written.
    pub written: bool,
}

/// What the consumer holds between deciding to take and having cleared the flag.
pub ghost struct Receiving<T> {
    /// The value, once it is out of the slot.
    pub taken: Option<T>,
}

/// A channel and what its endpoints are in the middle of.
pub ghost struct Shared<T> {
    /// The byte, the slot and the history, where a value counts as accepted once the
    /// flag is raised and as handed out once it is cleared.
    pub channel: Channel<T>,
    pub sending: Option<Sending<T>>,
    pub receiving: Option<Receiving<T>>,
}

/// One step of one endpoint.
pub ghost enum Step<T> {
    /// The producer reads the byte and decides what to do with this value.
    SendBegin(T),
    /// The producer writes the slot.
    SendWrite,
    /// The producer raises the full flag.
    SendPublish,
    /// The consumer reads the byte and decides.
    RecvBegin,
    /// The consumer empties the slot.
    RecvTake,
    /// The consumer clears the full flag.
    RecvRelease,
    /// Either endpoint closes the channel.
    Close,
}

impl<T> Shared<T> {
    /// A new channel, with both endpoints idle.
    pub open spec fn fresh() -> Self {
        Shared { channel: Channel::fresh(), sending: None, receiving: None }
    }

    /// What the slot holds.
    pub open spec fn expected(self) -> Option<T> {
        if self.channel.word.full {
            if self.receiving is Some && self.receiving->0.taken is Some {
                None
            } else {
                Some(self.channel.accepted[self.channel.delivered as int])
            }
        } else if self.sending is Some && self.sending->0.written {
            Some(self.sending->0.value)
        } else {
            None
        }
    }

    /// The byte, the slot, the history and the endpoints agree.  A producer at work has
    /// found the slot free and a consumer at work has found it taken.  The slot holds the
    /// value in flight unless the consumer has just moved it out, or else the value that
    /// the producer has just written.
    pub open spec fn wf(self) -> bool {
        let channel = self.channel;
        &&& channel.delivered <= channel.accepted.len()
        &&& channel.in_flight() == if channel.word.full {
            1int
        } else {
            0int
        }
        &&& self.sending is Some ==> !channel.word.full
        &&& self.receiving matches Some(receiving) ==> {
            &&& channel.word.full
            &&& receiving.taken matches Some(value) ==> value
                == channel.accepted[channel.delivered as int]
        }
        &&& channel.slot == self.expected()
    }

    /// `step` is one that an endpoint can take now: each endpoint takes its three
    /// steps in order and starts over only when it is through.
    pub open spec fn enabled(self, step: Step<T>) -> bool {
        match step {
            Step::SendBegin(_) => self.sending is None,
            Step::SendWrite => self.sending is Some && !self.sending->0.written,
            Step::SendPublish => self.sending is Some && self.sending->0.written,
            Step::RecvBegin => self.receiving is None,
            Step::RecvTake => self.receiving is Some && self.receiving->0.taken is None,
            Step::RecvRelease => self.receiving is Some && self.receiving->0.taken is Some,
            Step::Close => true,
        }
    }

    /// The channel and its endpoints after `step`, unchanged where no endpoint can take
    /// it.
    pub open spec fn apply(self, step: Step<T>) -> Self {
        let channel = self.channel;
        if !self.enabled(step) {
            self
        } else {
            match step {
                Step::SendBegin(value) => match send_plan(channel.word) {
                    SendPlan::Write => Shared {
                        sending: Some(Sending { value, written: false }),
                        ..self
                    },
                    _ => self,
                },
                Step::SendWrite => {
                    let sending = self.sending->0;
                    Shared {
                        channel: Channel { slot: Some(sending.value), ..channel },
                        sending: Some(Sending { written: true, ..sending }),
                        ..self
                    }
                },
                Step::SendPublish => {
                    let sending = self.sending->0;
                    Shared {
                        channel: Channel {
                            word: Fields { full: true, ..channel.word },
                            accepted: channel.accepted.push(sending.value),
                            ..channel
                        },
                        sending: None,
                        ..self
                    }
                },
                Step::RecvBegin => match recv_plan(channel.word) {
                    RecvPlan::Take => Shared {
                        receiving: Some(Receiving { taken: None }),
                        ..self
                    },
                    _ => self,
                },
                Step::RecvTake => Shared {
                    channel: Channel { slot: None, ..channel },
                    receiving: Some(Receiving { taken: channel.slot }),
                    ..self
                },
                Step::RecvRelease => Shared {
                    channel: Channel {
                        word: Fields { full: false, ..channel.word },
                        delivered: channel.delivered + 1,
                        ..channel
                    },
                    receiving: None,
                    ..self
                },
                Step::Close => Shared { channel: channel.close(), ..self },
            }
        }
    }

    /// The channel and its endpoints after every one of `steps`, first to last.
    pub open spec fn run(self, steps: Seq<Step<T>>) -> Self
        decreases steps.len(),
    {
        if steps.len() == 0 {
            self
        } else {
            self.run(steps.drop_last()).apply(steps.last())
        }
    }
}

/// With both endpoints idle, the channel is well-formed here exactly when it is
/// well-formed as a queue.
pub proof fn lemma_idle<T>(shared: Shared<T>)
    requires
        shared.sending is None,
        shared.receiving is None,
    ensures
        shared.wf() <==> shared.channel.wf(),
{
}

/// The producer finds the slot that it decided to write empty, whatever the consumer
/// has done since the decision: no value is overwritten.
pub proof fn lemma_write_finds_slot_empty<T>(shared: Shared<T>)
    requires
        shared.wf(),
        shared.enabled(Step::SendWrite),
    ensures
        shared.channel.slot is None,
{
}

/// The consumer finds in the slot the value in flight, whatever the producer has done
/// since the decision.
pub proof fn lemma_take_finds_oldest<T>(shared: Shared<T>)
    requires
        shared.wf(),
        shared.enabled(Step::RecvTake),
    ensures
        shared.channel.slot == Some(shared.channel.accepted[shared.channel.delivered as int]),
{
}

/// Whatever step an endpoint takes, at whatever moment, the channel stays well-formed, a
/// closed channel stays closed, and nothing accepted is forgotten.
pub proof fn lemma_step<T>(shared: Shared<T>, step: Step<T>)
    requires
        shared.wf(),
    ensures
        shared.apply(step).wf(),
        shared.channel.word.closed ==> shared.apply(step).channel.word.closed,
        shared.channel.accepted.is_prefix_of(shared.apply(step).channel.accepted),
        shared.channel.delivered <= shared.apply(step).channel.delivered,
{
}

/// Start from a new channel and let the two endpoints take any steps in any order.  The
/// channel is well-formed after each of them.
pub proof fn lemma_run<T>(steps: Seq<Step<T>>)
    ensures
        Shared::<T>::fresh().run(steps).wf(),
    decreases steps.len(),
{
    let start = Shared::<T>::fresh();
    if steps.len() > 0 {
        lemma_run::<T>(steps.drop_last());
        lemma_step(start.run(steps.drop_last()), steps.last());
    }
}

/// A send whose three steps no step of the consumer comes between is the send of the
/// queue: it accepts the value exactly when [`Channel::send`] does and leaves the same
/// channel.
pub proof fn lemma_whole_send<T>(shared: Shared<T>, value: T)
    requires
        shared.wf(),
        shared.sending is None,
        shared.receiving is None,
    ensures
        ({
            let decided = shared.apply(Step::SendBegin(value));
            let through = decided.apply(Step::SendWrite).apply(Step::SendPublish);
            let (after, told) = shared.channel.send(value);
            &&& told matches Ok(Ok(_)) ==> decided.sending is Some && through.channel == after
                && through.sending is None
            &&& !(told matches Ok(Ok(_))) ==> decided == shared && after == shared.channel
        }),
{
}

/// A receive whose three steps no step of the producer comes between is the receive of
/// the queue: it hands out a value exactly when [`Channel::recv`] does, the same value,
/// and leaves the same channel.
pub proof fn lemma_whole_recv<T>(shared: Shared<T>)
    requires
        shared.wf(),
        shared.sending is None,
        shared.receiving is None,
    ensures
        ({
            let decided = shared.apply(Step::RecvBegin);
            let emptied = decided.apply(Step::RecvTake);
            let through = emptied.apply(Step::RecvRelease);
            let (after, told) = shared.channel.recv();
            &&& told matches Ok(Ok(value)) ==> decided.receiving is Some
                && emptied.receiving->0.taken == Some(value) && through.channel == after
                && through.receiving is None
            &&& !(told matches Ok(Ok(_))) ==> decided == shared && after == shared.channel
        }),
{
}

} // verus!
