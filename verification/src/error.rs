//! The values by which the channels report why an operation did not complete.

use vstd::prelude::*;

verus! {

/// Error performing non-blocking send.  Both variants hand the rejected value back.
#[derive(Debug, Clone, Copy, PartialEq, Eq)]
pub enum SendErrorNoWait<T> {
    /// The channel is full.
    Full(T),
    /// The channel is closed.
    Closed(T),
}

/// Error performing blocking send.
#[derive(Debug, Clone, Copy, PartialEq, Eq)]
pub enum SendError<T> {
    /// The channel is closed.
    Closed(T),
}

/// Error performing non-blocking recv.
#[derive(Debug, Clone, Copy, PartialEq, Eq)]
pub enum RecvErrorNoWait {
    /// The channel is empty.
    Empty,
    /// The channel is closed.
    Closed,
}

/// Error performing blocking recv.
#[derive(Debug, Clone, Copy, PartialEq, Eq)]
pub enum RecvError {
    /// The channel is closed.
    Closed,
}

/// A condition that correct use of a channel never produces.  The channels report it as a
/// value and leave it to the caller to stop the process.
#[derive(Debug, Clone, Copy, PartialEq, Eq)]
pub enum Fault {
    /// The link already has an endpoint of this kind.
    AlreadyAttached,
    /// Every seat of the waker table is occupied.
    SeatsExhausted,
    /// The seat to release is not occupied, or lies outside the table.
    SeatNotOccupied,
    /// The bounded compare-and-swap loop used up its attempts.
    UpdateExhausted,
    /// The link is torn down while an endpoint is attached to it and it is not closed.
    StillAttached,
    /// The count of live endpoints would leave the range of its counter.
    RefCount,
    /// The buffer has no slot, or too many for the index fields of the state word.
    BadCapacity,
    /// The state word and the slots disagree: an index outside the buffer, a slot that
    /// is empty where the indices say occupied, or occupied where they say empty.
    Corrupted,
}

impl<T> SendErrorNoWait<T> {
    /// The value that the channel did not accept.
    pub open spec fn value(self) -> T {
        match self {
            SendErrorNoWait::Full(value) => value,
            SendErrorNoWait::Closed(value) => value,
        }
    }

    /// Constructs [`SendErrorNoWait::Full`]
    pub fn full(value: T) -> (r: Self)
        ensures
            r == SendErrorNoWait::Full(value),
    {
        SendErrorNoWait::Full(value)
    }

    /// Constructs [`SendErrorNoWait::Closed`]
    pub fn closed(value: T) -> (r: Self)
        ensures
            r == SendErrorNoWait::Closed(value),
    {
        SendErrorNoWait::Closed(value)
    }

    /// Check whether is [`SendErrorNoWait::Full`]
    pub fn is_full(&self) -> (r: bool)
        ensures
            r == (*self is Full),
    {
        matches!(self, SendErrorNoWait::Full(_))
    }

    /// Check whether is [`SendErrorNoWait::Closed`]
    pub fn is_closed(&self) -> (r: bool)
        ensures
            r == (*self is Closed),
    {
        matches!(self, SendErrorNoWait::Closed(_))
    }

    /// The same rejection, carrying `value` in place of what it carried.
    pub fn map_value<U>(self, value: U) -> (r: SendErrorNoWait<U>)
        ensures
            r.value() == value,
            (r is Full) == (self is Full),
    {
        match self {
            SendErrorNoWait::Full(_) => SendErrorNoWait::Full(value),
            SendErrorNoWait::Closed(_) => SendErrorNoWait::Closed(value),
        }
    }
}

impl RecvErrorNoWait {
    /// Constructs [`RecvErrorNoWait::Empty`]
    pub fn empty() -> (r: Self)
        ensures
            r == RecvErrorNoWait::Empty,
    {
        RecvErrorNoWait::Empty
    }

    /// Constructs [`RecvErrorNoWait::Closed`]
    pub fn closed() -> (r: Self)
        ensures
            r == RecvErrorNoWait::Closed,
    {
        RecvErrorNoWait::Closed
    }

    /// Check whether is [`RecvErrorNoWait::Empty`]
    pub fn is_empty(&self) -> (r: bool)
        ensures
            r == (*self is Empty),
    {
        matches!(self, RecvErrorNoWait::Empty)
    }

    /// Check whether is [`RecvErrorNoWait::Closed`]
    pub fn is_closed(&self) -> (r: bool)
        ensures
            r == (*self is Closed),
    {
        matches!(self, RecvErrorNoWait::Closed)
    }
}

impl<T> SendError<T> {
    /// The value that the channel did not accept.
    pub open spec fn value(self) -> T {
        match self {
            SendError::Closed(value) => value,
        }
    }

    /// Constructs [`SendError::Closed`]
    pub fn closed(value: T) -> (r: Self)
        ensures
            r == SendError::Closed(value),
    {
        SendError::Closed(value)
    }

    /// Check whether is [`SendError::Closed`]
    pub fn is_closed(&self) -> (r: bool)
        ensures
            r,
    {
        matches!(self, SendError::Closed(_))
    }
}

impl RecvError {
    /// Constructs [`RecvError::Closed`]
    pub fn closed() -> (r: Self)
        ensures
            r == RecvError::Closed,
    {
        RecvError::Closed
    }

    /// Check whether is [`RecvError::Closed`]
    pub fn is_closed(&self) -> (r: bool)
        ensures
            r,
    {
        matches!(self, RecvError::Closed)
    }
}

} // verus!
