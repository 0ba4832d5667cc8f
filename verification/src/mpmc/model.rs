//! The multi-producer/multi-consumer channel step by step: what the decisions of
//! [`ring`](super::ring) add up to when any number of endpoints carry them out in any
//! order.
//!
//! A send is three steps, claim, write and publish, and a receive is three, claim, empty
//! and release; between two steps of one endpoint the others may take any steps of theirs.
//! [`Channel`] puts the state word and the slots side by side with counters that number
//! the claims on each side, and the laws below say what holds after every step.

use crate::error::Fault;
use crate::mpmc::bits::Fields;
use crate::mpmc::ring::{
    capacity_ok, head_claim, head_release, reclaim_plan, tail_claim, tail_publish, RecvRefusal,
    SendRefusal,
};
use crate::utils::ring::{
    lemma_same_slot, lemma_slot_distance, lemma_slot_full, lemma_slot_of, slot_of,
};
use vstd::prelude::*;

verus! {

/// A channel at one moment.
///
/// The claims on the tail side are numbered from 0 in the order in which they were
/// granted, and so are the claims on the head side.  The number of a claim is the ticket
/// of the endpoint that holds it.
pub ghost struct Channel<T> {
    /// What the state word says.
    pub word: Fields,
    /// What each slot of the buffer holds.
    pub slots: Seq<Option<T>>,
    /// How many slots producers have claimed so far.
    pub claimed: nat,
    /// How many of them have been published.
    pub published: nat,
    /// How many slots consumers have claimed so far.
    pub taken: nat,
    /// How many of them have been handed back.
    pub released: nat,
    /// The value that the producer with a given ticket has written.
    pub written: Map<nat, T>,
    /// The tickets of the consumers that have moved their value out.
    pub emptied: Set<nat>,
}

/// One step of one endpoint.
pub ghost enum Step<T> {
    /// A producer asks for a slot.
    ClaimTail,
    /// The producer with this ticket writes its value into its slot.
    Write { ticket: nat, value: T },
    /// The producer with this ticket tries to publish its slot.
    Publish { ticket: nat },
    /// A consumer asks for a slot.
    ClaimHead,
    /// The consumer with this ticket moves the value out of its slot.
    Empty { ticket: nat },
    /// The consumer with this ticket tries to hand its slot back.
    Release { ticket: nat },
    /// Any endpoint closes the channel.
    Close,
}

impl<T> Channel<T> {
    /// The number of slots.
    pub open spec fn len(self) -> usize {
        self.slots.len() as usize
    }

    /// What the slot of `ticket` holds: the value written under that ticket from the
    /// moment it is written until the consumer with the same ticket moves it out.
    pub open spec fn content(self, ticket: nat) -> Option<T> {
        if self.written.contains_key(ticket) && !self.emptied.contains(ticket) {
            Some(self.written[ticket])
        } else {
            None
        }
    }

    /// The word, the slots and the counters agree.  The four counters stand in the
    /// order released, taken, published, claimed, with less than a round between the
    /// first and the last, and each index of the word is the slot of its counter.
    /// Everything published has been written, only what was claimed is written, only
    /// takers have emptied a slot and everyone who handed a slot back has emptied it.  The
    /// slots of the tickets from `released` on, one round of them, hold what
    /// [`Channel::content`] says.
    pub open spec fn wf(self) -> bool {
        &&& self.slots.len() <= usize::MAX
        &&& capacity_ok(self.len())
        &&& self.released <= self.taken <= self.published <= self.claimed
        &&& self.claimed <= self.released + self.len() - 1
        &&& self.word.head_avail == slot_of(self.released, self.len())
        &&& self.word.head_taken == slot_of(self.taken, self.len())
        &&& self.word.tail_avail == slot_of(self.published, self.len())
        &&& self.word.tail_taken == slot_of(self.claimed, self.len())
        &&& forall|t: nat| t < self.published ==> #[trigger] self.written.contains_key(t)
        &&& forall|t: nat| #[trigger] self.written.contains_key(t) ==> t < self.claimed
        &&& forall|t: nat| #[trigger] self.emptied.contains(t) ==> t < self.taken
        &&& forall|t: nat| t < self.released ==> #[trigger] self.emptied.contains(t)
        &&& forall|t: nat|
            self.released <= t < self.released + self.len() ==> self.slots[slot_of(
                t,
                self.len(),
            ) as int] == #[trigger] self.content(t)
    }

    /// The channel over a buffer of `len` empty slots: open, nothing claimed.
    pub open spec fn fresh(len: usize) -> Self {
        Channel {
            word: Fields {
                closed: false,
                head_taken: 0,
                head_avail: 0,
                tail_taken: 0,
                tail_avail: 0,
            },
            slots: Seq::new(len as nat, |i: int| None),
            claimed: 0,
            published: 0,
            taken: 0,
            released: 0,
            written: Map::empty(),
            emptied: Set::empty(),
        }
    }

    /// A producer asks for a slot: the channel afterwards, and the ticket or the
    /// refusal that the producer gets.
    pub open spec fn claim_tail(self) -> (Self, Result<nat, SendRefusal>) {
        match tail_claim(self.word, self.len()) {
            Err(refusal) => (self, Err(refusal)),
            Ok(word) => (Channel { word, claimed: self.claimed + 1, ..self }, Ok(self.claimed)),
        }
    }

    /// The producer with `ticket` has its claim and has not written yet.
    pub open spec fn may_write(self, ticket: nat) -> bool {
        self.published <= ticket < self.claimed && !self.written.contains_key(ticket)
    }

    /// The producer with `ticket` writes `value` into its slot.
    pub open spec fn write(self, ticket: nat, value: T) -> Self {
        Channel {
            slots: self.slots.update(slot_of(ticket, self.len()) as int, Some(value)),
            written: self.written.insert(ticket, value),
            ..self
        }
    }

    /// The producer with `ticket` has written and not published yet.
    pub open spec fn may_publish(self, ticket: nat) -> bool {
        self.published <= ticket < self.claimed && self.written.contains_key(ticket)
    }

    /// The producer with `ticket` tries to publish its slot: the channel afterwards,
    /// unchanged where the producer has to try again.
    pub open spec fn publish(self, ticket: nat) -> Self {
        match tail_publish(
            self.word,
            slot_of(ticket, self.len()),
            slot_of(ticket + 1, self.len()),
        ) {
            None => self,
            Some(word) => Channel { word, published: self.published + 1, ..self },
        }
    }

    /// A consumer asks for a slot: the channel afterwards, and the ticket or the
    /// refusal that the consumer gets.
    pub open spec fn claim_head(self) -> (Self, Result<nat, RecvRefusal>) {
        match head_claim(self.word, self.len()) {
            Err(refusal) => (self, Err(refusal)),
            Ok(word) => (Channel { word, taken: self.taken + 1, ..self }, Ok(self.taken)),
        }
    }

    /// The consumer with `ticket` has its claim and has not moved the value out yet.
    pub open spec fn may_empty(self, ticket: nat) -> bool {
        self.released <= ticket < self.taken && !self.emptied.contains(ticket)
    }

    /// The consumer with `ticket` moves the value out of its slot: the channel
    /// afterwards, and what the slot held.
    pub open spec fn empty(self, ticket: nat) -> (Self, Option<T>) {
        (
            Channel {
                slots: self.slots.update(slot_of(ticket, self.len()) as int, None),
                emptied: self.emptied.insert(ticket),
                ..self
            },
            self.slots[slot_of(ticket, self.len()) as int],
        )
    }

    /// The consumer with `ticket` has moved its value out and not handed the slot back
    /// yet.
    pub open spec fn may_release(self, ticket: nat) -> bool {
        self.released <= ticket < self.taken && self.emptied.contains(ticket)
    }

    /// The consumer with `ticket` tries to hand its slot back: the channel afterwards,
    /// unchanged where the consumer has to try again.
    pub open spec fn release(self, ticket: nat) -> Self {
        match head_release(
            self.word,
            slot_of(ticket, self.len()),
            slot_of(ticket + 1, self.len()),
        ) {
            None => self,
            Some(word) => Channel { word, released: self.released + 1, ..self },
        }
    }

    /// Any endpoint closes the channel.
    pub open spec fn close(self) -> Self {
        Channel { word: Fields { closed: true, ..self.word }, ..self }
    }

    /// `step` is one that an endpoint takes in this state: it writes, publishes, empties
    /// or hands back only under a ticket that it holds and in that order.
    pub open spec fn enabled(self, step: Step<T>) -> bool {
        match step {
            Step::ClaimTail => true,
            Step::Write { ticket, value } => self.may_write(ticket),
            Step::Publish { ticket } => self.may_publish(ticket),
            Step::ClaimHead => true,
            Step::Empty { ticket } => self.may_empty(ticket),
            Step::Release { ticket } => self.may_release(ticket),
            Step::Close => true,
        }
    }

    /// The channel after `step`, which changes nothing where no endpoint can take it.
    pub open spec fn apply(self, step: Step<T>) -> Self {
        if !self.enabled(step) {
            self
        } else {
            match step {
                Step::ClaimTail => self.claim_tail().0,
                Step::Write { ticket, value } => self.write(ticket, value),
                Step::Publish { ticket } => self.publish(ticket),
                Step::ClaimHead => self.claim_head().0,
                Step::Empty { ticket } => self.empty(ticket).0,
                Step::Release { ticket } => self.release(ticket),
                Step::Close => self.close(),
            }
        }
    }

    /// The channel after every one of `steps`, first to last.
    pub open spec fn run(self, steps: Seq<Step<T>>) -> Self
        decreases steps.len(),
    {
        if steps.len() == 0 {
            self
        } else {
            self.run(steps.drop_last()).apply(steps.last())
        }
    }
}

/// A channel over a buffer that can back one starts out well-formed.
pub proof fn lemma_fresh<T>(len: usize)
    requires
        capacity_ok(len),
    ensures
        Channel::<T>::fresh(len).wf(),
        Channel::<T>::fresh(len).len() == len,
{
    lemma_slot_of(0, len);
}

/// Capacity: of a buffer of `len` slots never more than `len - 1` are claimed and not yet
/// handed back, and so never more than `len - 1` values are in flight.
pub proof fn lemma_capacity<T>(channel: Channel<T>)
    requires
        channel.wf(),
    ensures
        channel.published - channel.taken <= channel.claimed - channel.released <= channel.len()
            - 1,
{
}

/// A producer that asks for a slot of a well-formed channel is refused as closed
/// exactly when the channel is closed, and as full exactly when it is open with
/// `len - 1` slots claimed and not handed back.  Otherwise it gets the next ticket, whose
/// slot is the one at tail-taken, is empty and is now the producer's to write.  The
/// channel stays well-formed and, where the producer is refused, unchanged.
pub proof fn lemma_claim_tail<T>(channel: Channel<T>)
    requires
        channel.wf(),
    ensures
        ({
            let (after, told) = channel.claim_tail();
            &&& after.wf()
            &&& after.len() == channel.len()
            &&& after.word.closed == channel.word.closed
            &&& told == Err::<nat, _>(SendRefusal::Closed) <==> channel.word.closed
            &&& told == Err::<nat, _>(SendRefusal::Full) <==> !channel.word.closed
                && channel.claimed - channel.released == channel.len() - 1
            &&& told is Ok <==> !channel.word.closed && channel.claimed - channel.released
                < channel.len() - 1
            &&& told is Err ==> after == channel
            &&& told matches Ok(ticket) ==> {
                &&& ticket == channel.claimed
                &&& after.claimed == ticket + 1
                &&& channel.word.tail_taken == slot_of(ticket, channel.len())
                &&& after.word.tail_taken == slot_of(ticket + 1, channel.len())
                &&& after.slots[slot_of(ticket, channel.len()) as int] is None
                &&& after.may_write(ticket)
            }
        }),
{
    let len = channel.len();
    lemma_slot_of(channel.claimed, len);
    lemma_slot_of(channel.released, len);
    lemma_slot_full(channel.released, channel.claimed, len);
    let (after, told) = channel.claim_tail();
    if told is Ok {
        assert forall|t: nat| after.released <= t < after.released + len implies after.slots[slot_of(
            t,
            len,
        ) as int] == #[trigger] after.content(t) by {
            assert(channel.slots[slot_of(t, len) as int] == channel.content(t));
        }
        assert(channel.slots[slot_of(channel.claimed, len) as int] == channel.content(
            channel.claimed,
        ));
    }
}

/// The producer that writes under its ticket finds its slot empty, so that no value is
/// overwritten, and may publish afterwards.  The channel stays well-formed.
pub proof fn lemma_write<T>(channel: Channel<T>, ticket: nat, value: T)
    requires
        channel.wf(),
        channel.may_write(ticket),
    ensures
        channel.slots[slot_of(ticket, channel.len()) as int] is None,
        channel.write(ticket, value).wf(),
        channel.write(ticket, value).len() == channel.len(),
        channel.write(ticket, value).word == channel.word,
        channel.write(ticket, value).may_publish(ticket),
        channel.write(ticket, value).written[ticket] == value,
{
    let len = channel.len();
    let after = channel.write(ticket, value);
    lemma_slot_of(ticket, len);
    assert(channel.slots[slot_of(ticket, len) as int] == channel.content(ticket));
    assert forall|t: nat| after.released <= t < after.released + len implies after.slots[slot_of(
        t,
        len,
    ) as int] == #[trigger] after.content(t) by {
        assert(channel.slots[slot_of(t, len) as int] == channel.content(t));
        lemma_slot_of(t, len);
        if t != ticket && slot_of(t, len) == slot_of(ticket, len) {
            lemma_same_slot(t, ticket, len);
        }
    }
    assert forall|t: nat| t < after.published implies #[trigger] after.written.contains_key(
        t,
    ) by {
        assert(channel.written.contains_key(t));
    }
}

/// Slots are published in the order in which they were claimed: the producer that tries
/// to publish gets through exactly when every earlier claim is published, and has to try
/// again otherwise.  The channel stays well-formed.
pub proof fn lemma_publish<T>(channel: Channel<T>, ticket: nat)
    requires
        channel.wf(),
        channel.may_publish(ticket),
    ensures
        channel.publish(ticket).wf(),
        channel.publish(ticket).len() == channel.len(),
        channel.publish(ticket).word.closed == channel.word.closed,
        ticket == channel.published ==> channel.publish(ticket).published == ticket + 1,
        ticket != channel.published ==> channel.publish(ticket) == channel,
{
    let len = channel.len();
    let after = channel.publish(ticket);
    lemma_slot_of(ticket, len);
    lemma_slot_of(channel.published, len);
    if slot_of(ticket, len) == slot_of(channel.published, len) {
        lemma_same_slot(ticket, channel.published, len);
        assert forall|t: nat| after.released <= t < after.released + len implies after.slots[slot_of(
            t,
            len,
        ) as int] == #[trigger] after.content(t) by {
            assert(channel.slots[slot_of(t, len) as int] == channel.content(t));
        }
        assert forall|t: nat| t < after.published implies #[trigger] after.written.contains_key(
            t,
        ) by {
            if t < channel.published {
                assert(channel.written.contains_key(t));
            }
        }
    }
}

/// A consumer that asks for a slot of a well-formed channel gets the next ticket
/// exactly when a published slot is unclaimed, closed or not.  Otherwise it is refused,
/// as closed exactly when the channel is closed and as empty when it is open.  The
/// channel stays well-formed and, where the consumer is refused, unchanged.
pub proof fn lemma_claim_head<T>(channel: Channel<T>)
    requires
        channel.wf(),
    ensures
        ({
            let (after, told) = channel.claim_head();
            &&& after.wf()
            &&& after.len() == channel.len()
            &&& after.word.closed == channel.word.closed
            &&& told == Err::<nat, _>(RecvRefusal::Closed) <==> channel.word.closed
                && channel.taken == channel.published
            &&& told == Err::<nat, _>(RecvRefusal::Empty) <==> !channel.word.closed
                && channel.taken == channel.published
            &&& told is Ok <==> channel.taken < channel.published
            &&& told is Err ==> after == channel
            &&& told matches Ok(ticket) ==> {
                &&& ticket == channel.taken
                &&& after.taken == ticket + 1
                &&& channel.word.head_taken == slot_of(ticket, channel.len())
                &&& after.word.head_taken == slot_of(ticket + 1, channel.len())
                &&& after.may_empty(ticket)
            }
        }),
{
    let len = channel.len();
    lemma_slot_of(channel.taken, len);
    lemma_slot_of(channel.published, len);
    if slot_of(channel.taken, len) == slot_of(channel.published, len) {
        lemma_same_slot(channel.taken, channel.published, len);
    }
    let (after, told) = channel.claim_head();
    if told is Ok {
        assert forall|t: nat| after.released <= t < after.released + len implies after.slots[slot_of(
            t,
            len,
        ) as int] == #[trigger] after.content(t) by {
            assert(channel.slots[slot_of(t, len) as int] == channel.content(t));
        }
        assert forall|t: nat| #[trigger] after.emptied.contains(t) implies t < after.taken by {
            assert(channel.emptied.contains(t));
        }
    }
}

/// Conservation and ordering: the consumer with a ticket finds in its slot the value
/// that the producer with the same ticket wrote, and may hand the slot back afterwards.
/// So the values leave in the order of the claims that brought them, each one once.  The
/// channel stays well-formed.
pub proof fn lemma_empty<T>(channel: Channel<T>, ticket: nat)
    requires
        channel.wf(),
        channel.may_empty(ticket),
    ensures
        channel.written.contains_key(ticket),
        channel.empty(ticket).1 == Some(channel.written[ticket]),
        channel.empty(ticket).0.wf(),
        channel.empty(ticket).0.len() == channel.len(),
        channel.empty(ticket).0.word == channel.word,
        channel.empty(ticket).0.may_release(ticket),
{
    let len = channel.len();
    let after = channel.empty(ticket).0;
    lemma_slot_of(ticket, len);
    assert(channel.written.contains_key(ticket));
    assert(channel.slots[slot_of(ticket, len) as int] == channel.content(ticket));
    assert forall|t: nat| after.released <= t < after.released + len implies after.slots[slot_of(
        t,
        len,
    ) as int] == #[trigger] after.content(t) by {
        assert(channel.slots[slot_of(t, len) as int] == channel.content(t));
        lemma_slot_of(t, len);
        if t != ticket && slot_of(t, len) == slot_of(ticket, len) {
            lemma_same_slot(t, ticket, len);
        }
    }
    assert forall|t: nat| t < after.released implies #[trigger] after.emptied.contains(t) by {
        assert(channel.emptied.contains(t));
    }
}

/// Slots are handed back in the order in which they were claimed: the consumer that
/// tries to hand its slot back gets through exactly when every earlier claim is handed
/// back, and has to try again otherwise.  The channel stays well-formed.
pub proof fn lemma_release<T>(channel: Channel<T>, ticket: nat)
    requires
        channel.wf(),
        channel.may_release(ticket),
    ensures
        channel.release(ticket).wf(),
        channel.release(ticket).len() == channel.len(),
        channel.release(ticket).word.closed == channel.word.closed,
        ticket == channel.released ==> channel.release(ticket).released == ticket + 1,
        ticket != channel.released ==> channel.release(ticket) == channel,
{
    let len = channel.len();
    let after = channel.release(ticket);
    lemma_slot_of(ticket, len);
    lemma_slot_of(channel.released, len);
    if slot_of(ticket, len) == slot_of(channel.released, len) {
        lemma_same_slot(ticket, channel.released, len);
        assert forall|t: nat| after.released <= t < after.released + len implies after.slots[slot_of(
            t,
            len,
        ) as int] == #[trigger] after.content(t) by {
            if t < channel.released + len {
                assert(channel.slots[slot_of(t, len) as int] == channel.content(t));
            } else {
                assert(channel.slots[slot_of(channel.released, len) as int] == channel.content(
                    channel.released,
                ));
                assert(!channel.written.contains_key(t));
            }
        }
        assert forall|t: nat| t < after.released implies #[trigger] after.emptied.contains(t) by {
            if t < channel.released {
                assert(channel.emptied.contains(t));
            }
        }
    }
}

/// Closing keeps the channel well-formed and changes nothing but the closed flag: what
/// is claimed may still be written and published, what is published may still be
/// received.
pub proof fn lemma_close<T>(channel: Channel<T>)
    requires
        channel.wf(),
    ensures
        channel.close().wf(),
        channel.close().word.closed,
        channel.close() == (Channel {
            word: Fields { closed: true, ..channel.word },
            ..channel
        }),
{
    let after = channel.close();
    assert forall|t: nat|
        after.released <= t < after.released + after.len() implies after.slots[slot_of(
        t,
        after.len(),
    ) as int] == #[trigger] after.content(t) by {
        assert(channel.slots[slot_of(t, channel.len()) as int] == channel.content(t));
    }
}

/// A send that no other producer is in the middle of goes through in one go: the
/// producer that gets a ticket writes, publishes at the first try, and leaves its value
/// as the newest published one.
pub proof fn lemma_whole_send<T>(channel: Channel<T>, value: T)
    requires
        channel.wf(),
        channel.published == channel.claimed,
    ensures
        channel.claim_tail().1 matches Ok(ticket) ==> {
            let through = channel.claim_tail().0.write(ticket, value).publish(ticket);
            &&& through.wf()
            &&& ticket == channel.published
            &&& through.published == ticket + 1
            &&& through.claimed == ticket + 1
            &&& through.written == channel.written.insert(ticket, value)
            &&& through.taken == channel.taken
            &&& through.released == channel.released
        },
{
    lemma_claim_tail(channel);
    let (claimed, told) = channel.claim_tail();
    if let Ok(ticket) = told {
        lemma_write(claimed, ticket, value);
        lemma_publish(claimed.write(ticket, value), ticket);
    }
}

/// A receive that no other consumer is in the middle of goes through in one go: the
/// consumer that gets a ticket finds the oldest published value that nobody has claimed,
/// and hands its slot back at the first try.
pub proof fn lemma_whole_recv<T>(channel: Channel<T>)
    requires
        channel.wf(),
        channel.released == channel.taken,
    ensures
        channel.claim_head().1 matches Ok(ticket) ==> {
            let (emptied, value) = channel.claim_head().0.empty(ticket);
            let through = emptied.release(ticket);
            &&& through.wf()
            &&& ticket == channel.taken
            &&& value == Some(channel.written[ticket])
            &&& through.taken == ticket + 1
            &&& through.released == ticket + 1
            &&& through.written == channel.written
            &&& through.published == channel.published
            &&& through.claimed == channel.claimed
        },
{
    lemma_claim_head(channel);
    let (claimed, told) = channel.claim_head();
    if let Ok(ticket) = told {
        lemma_empty(claimed, ticket);
        lemma_release(claimed.empty(ticket).0, ticket);
    }
}

/// Tearing down a channel that no endpoint is attached to, and so none is in the middle
/// of a send or a receive, destroys the values that are published and unclaimed and
/// nothing else: the plan starts at the head and counts exactly these values, and every
/// slot on its way holds one.
pub proof fn lemma_reclaim<T>(channel: Channel<T>)
    requires
        channel.wf(),
        channel.released == channel.taken,
        channel.published == channel.claimed,
    ensures
        reclaim_plan(channel.word, 0, channel.len()) == Ok::<_, Fault>(
            (channel.word.head_avail, (channel.published - channel.taken) as usize),
        ),
        forall|t: nat|
            channel.taken <= t < channel.published ==> channel.slots[slot_of(
                t,
                channel.len(),
            ) as int] == Some(#[trigger] channel.written[t]),
{
    let len = channel.len();
    lemma_slot_of(channel.taken, len);
    lemma_slot_of(channel.published, len);
    lemma_slot_distance(channel.taken, channel.published, len);
    if slot_of(channel.taken, len) == slot_of(channel.published, len) {
        lemma_same_slot(channel.taken, channel.published, len);
    }
    assert forall|t: nat| channel.taken <= t < channel.published implies channel.slots[slot_of(
        t,
        len,
    ) as int] == Some(#[trigger] channel.written[t]) by {
        assert(channel.slots[slot_of(t, len) as int] == channel.content(t));
        assert(channel.written.contains_key(t));
        assert(!channel.emptied.contains(t));
    }
}

/// Whatever step an endpoint takes, a well-formed channel stays well-formed over the
/// same buffer, and a closed one stays closed.
pub proof fn lemma_step<T>(channel: Channel<T>, step: Step<T>)
    requires
        channel.wf(),
    ensures
        channel.apply(step).wf(),
        channel.apply(step).len() == channel.len(),
        channel.word.closed ==> channel.apply(step).word.closed,
{
    if channel.enabled(step) {
        match step {
            Step::ClaimTail => lemma_claim_tail(channel),
            Step::Write { ticket, value } => lemma_write(channel, ticket, value),
            Step::Publish { ticket } => lemma_publish(channel, ticket),
            Step::ClaimHead => lemma_claim_head(channel),
            Step::Empty { ticket } => lemma_empty(channel, ticket),
            Step::Release { ticket } => lemma_release(channel, ticket),
            Step::Close => lemma_close(channel),
        }
    }
}

/// Start from an empty channel and let the endpoints take any steps in any order.  The
/// channel is well-formed after each of them: the indices never overtake each other, at
/// most `len - 1` slots are in use, and each slot holds a value exactly from the write
/// under its ticket to the emptying under the same ticket.
pub proof fn lemma_run<T>(len: usize, steps: Seq<Step<T>>)
    requires
        capacity_ok(len),
    ensures
        Channel::<T>::fresh(len).run(steps).wf(),
        Channel::<T>::fresh(len).run(steps).len() == len,
    decreases steps.len(),
{
    lemma_fresh::<T>(len);
    if steps.len() > 0 {
        lemma_run::<T>(len, steps.drop_last());
        lemma_step(Channel::<T>::fresh(len).run(steps.drop_last()), steps.last());
    }
}

/// Closure is for good: once the channel is closed it is closed after any further
/// steps, and every producer that asks for a slot from then on is refused as closed.
pub proof fn lemma_closed_is_final<T>(channel: Channel<T>, steps: Seq<Step<T>>)
    requires
        channel.wf(),
        channel.word.closed,
    ensures
        channel.run(steps).wf(),
        channel.run(steps).word.closed,
        channel.run(steps).claim_tail().1 == Err::<nat, _>(SendRefusal::Closed),
        channel.run(steps).claimed == channel.claimed,
    decreases steps.len(),
{
    if steps.len() > 0 {
        lemma_closed_is_final(channel, steps.drop_last());
        let before = channel.run(steps.drop_last());
        lemma_step(before, steps.last());
        lemma_claim_tail(before);
    }
    lemma_claim_tail(channel.run(steps));
}

} // verus!
