//! The answer of one poll step.

use crate::error::{Fault, RecvError, RecvErrorNoWait, SendError, SendErrorNoWait};
use vstd::prelude::*;

verus! {

/// What a poll step found: the operation completed with a result, or it has to be tried
/// again once the registered task is woken.
#[derive(Debug, Clone, Copy, PartialEq, Eq)]
pub enum Polled<R> {
    Ready(R),
    Pending,
}

impl<R> Polled<R> {
    /// Check whether is [`Polled::Pending`]
    pub fn is_pending(&self) -> (r: bool)
        ensures
            r == (*self is Pending),
    {
        matches!(self, Polled::Pending)
    }
}

/// What a poll step makes of a non-blocking receive: a value or closure completes the
/// receive, an empty channel means waiting, a fault stays a fault.
pub open spec fn recv_polled<T>(outcome: Result<Result<T, RecvErrorNoWait>, Fault>) -> Result<
    Polled<Result<T, RecvError>>,
    Fault,
> {
    match outcome {
        Ok(Ok(value)) => Ok(Polled::Ready(Ok(value))),
        Ok(Err(RecvErrorNoWait::Closed)) => Ok(Polled::Ready(Err(RecvError::Closed))),
        Ok(Err(RecvErrorNoWait::Empty)) => Ok(Polled::Pending),
        Err(fault) => Err(fault),
    }
}

/// What a poll step makes of a non-blocking send: acceptance or closure completes the
/// send, a full channel means waiting, a fault stays a fault.
pub open spec fn send_polled<T>(outcome: Result<Result<(), SendErrorNoWait<T>>, Fault>) -> Result<
    Polled<Result<(), SendError<T>>>,
    Fault,
> {
    match outcome {
        Ok(Ok(())) => Ok(Polled::Ready(Ok(()))),
        Ok(Err(SendErrorNoWait::Closed(value))) => Ok(Polled::Ready(Err(SendError::Closed(value)))),
        Ok(Err(SendErrorNoWait::Full(_))) => Ok(Polled::Pending),
        Err(fault) => Err(fault),
    }
}

/// What the sender keeps for its next poll step: the value that a full channel handed
/// back, and nothing otherwise.
pub open spec fn send_kept<T>(outcome: Result<Result<(), SendErrorNoWait<T>>, Fault>) -> Option<T> {
    match outcome {
        Ok(Err(SendErrorNoWait::Full(value))) => Some(value),
        _ => None,
    }
}

/// Turns the outcome of a non-blocking receive into the answer of the poll step that
/// made it.
pub fn settle_recv<T>(outcome: Result<Result<T, RecvErrorNoWait>, Fault>) -> (r: Result<
    Polled<Result<T, RecvError>>,
    Fault,
>)
    ensures
        r == recv_polled(outcome),
{
    match outcome {
        Ok(Ok(value)) => Ok(Polled::Ready(Ok(value))),
        Ok(Err(RecvErrorNoWait::Closed)) => Ok(Polled::Ready(Err(RecvError::closed()))),
        Ok(Err(RecvErrorNoWait::Empty)) => Ok(Polled::Pending),
        Err(fault) => Err(fault),
    }
}

/// Turns the outcome of a non-blocking send into the answer of the poll step that made
/// it, and leaves in `value` what the sender keeps for its next step.
pub fn settle_send<T>(
    outcome: Result<Result<(), SendErrorNoWait<T>>, Fault>,
    value: &mut Option<T>,
) -> (r: Result<Polled<Result<(), SendError<T>>>, Fault>)
    ensures
        r == send_polled(outcome),
        *final(value) == send_kept(outcome),
{
    match outcome {
        Ok(Ok(())) => {
            *value = None;
            Ok(Polled::Ready(Ok(())))
        },
        Ok(Err(SendErrorNoWait::Closed(rejected))) => {
            *value = None;
            Ok(Polled::Ready(Err(SendError::closed(rejected))))
        },
        Ok(Err(SendErrorNoWait::Full(rejected))) => {
            *value = Some(rejected);
            Ok(Polled::Pending)
        },
        Err(fault) => {
            *value = None;
            Err(fault)
        },
    }
}

} // verus!
