//! What came of one request to the node.

use crate::error::{BackendFault, LightningError};
use vstd::prelude::*;

verus! {

/// The outcome of sending one request over the session and waiting for its
/// answer. The caller that owns the session reports it; the backend reads it.
#[derive(Clone, Debug, PartialEq, Eq)]
pub enum RoundTrip<R> {
    /// The session could not be had, so nothing was sent.
    NotSent,
    /// The request was handed to the session and no answer of the node came
    /// back: the wait ran out, or the connection failed on the way.
    NoResponse,
    /// The node answered with an error status.
    NodeError,
    /// The node answered.
    Answered(R),
}

impl<R> RoundTrip<R> {
    /// The fault that the round trip ended in, if it ended in one.
    pub open spec fn fault(self) -> Option<BackendFault> {
        match self {
            RoundTrip::NotSent => Some(BackendFault::NotSent),
            RoundTrip::NoResponse => Some(BackendFault::NoResponse),
            RoundTrip::NodeError => Some(BackendFault::NodeError),
            RoundTrip::Answered(_) => None,
        }
    }

    /// What a round trip that ended with an error status comes to. A status
    /// that the node sent is the node's error. A status that arose on the
    /// caller's side of the connection says only that no answer came:
    /// whether the request had left is not known, so it does not count as
    /// unsent.
    pub open spec fn of_status(sent_by_node: bool) -> Self {
        if sent_by_node {
            RoundTrip::NodeError
        } else {
            RoundTrip::NoResponse
        }
    }

    /// The round trip that ended with an error status in place of an answer,
    /// by where the status came from.
    pub fn failed(sent_by_node: bool) -> (round_trip: Self)
        ensures
            round_trip == Self::of_status(sent_by_node),
    {
        if sent_by_node {
            RoundTrip::NodeError
        } else {
            RoundTrip::NoResponse
        }
    }

    /// The node's answer, or the round trip's fault as a backend error.
    pub open spec fn outcome(self) -> Result<R, LightningError> {
        match self {
            RoundTrip::Answered(answer) => Ok(answer),
            _ => Err(LightningError::Backend(self.fault().unwrap())),
        }
    }

    /// The node's answer, or the round trip's fault as a backend error. No fault
    /// is turned into an answer, and none into another fault.
    pub fn answer(self) -> (r: Result<R, LightningError>)
        ensures
            r == self.outcome(),
    {
        match self {
            RoundTrip::NotSent => Err(LightningError::Backend(BackendFault::NotSent)),
            RoundTrip::NoResponse => Err(LightningError::Backend(BackendFault::NoResponse)),
            RoundTrip::NodeError => Err(LightningError::Backend(BackendFault::NodeError)),
            RoundTrip::Answered(answer) => Ok(answer),
        }
    }
}

/// A round trip that ended in a fault is never read as an answer: what comes
/// of it is that fault, as a backend error. Of the three faults only a
/// request that never left is known to have changed nothing at the node.
pub proof fn lemma_fault_is_never_an_answer<R>(round_trip: RoundTrip<R>)
    requires
        round_trip.fault() is Some,
    ensures
        round_trip.outcome() == Err::<R, LightningError>(
            LightningError::Backend(round_trip.fault().unwrap()),
        ),
        LightningError::Backend(round_trip.fault().unwrap()).may_have_taken_effect() <==> !(
        round_trip is NotSent),
{
}

} // verus!
