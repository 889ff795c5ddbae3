//! The failures of a backend operation.

use vstd::prelude::*;

verus! {

/// How a round trip to the node went wrong.
#[derive(Clone, Copy, Debug, PartialEq, Eq, Structural)]
pub enum BackendFault {
    /// The request never left: the node has not seen it.
    NotSent,
    /// The request left and no answer came within the wait. What the node did
    /// with it is unknown.
    NoResponse,
    /// The node answered with an error of its own, or with an answer that
    /// cannot be what was asked for.
    NodeError,
}

/// The ways in which a backend operation fails.
#[derive(Clone, Copy, Debug, PartialEq, Eq, Structural)]
pub enum LightningError {
    /// The session to the node could not be established.
    ConnectError,
    /// The payment request is not a valid invoice.
    DecodeInvoice,
    /// The amount does not fit the node's amount field.
    InvalidAmount,
    /// The round trip to the node failed.
    Backend(BackendFault),
}

impl BackendFault {
    /// Whether the node may have acted on the request in spite of the fault.
    /// Only a request that never left is known to have changed nothing.
    pub open spec fn spec_may_have_taken_effect(&self) -> bool {
        *self != BackendFault::NotSent
    }

    /// Whether the node may have acted on the request in spite of the fault.
    #[verifier::when_used_as_spec(spec_may_have_taken_effect)]
    pub fn may_have_taken_effect(&self) -> (uncertain: bool)
        ensures
            uncertain == self.spec_may_have_taken_effect(),
    {
        match self {
            BackendFault::NotSent => false,
            BackendFault::NoResponse => true,
            BackendFault::NodeError => true,
        }
    }
}

impl LightningError {
    /// Whether the failure leaves open that the node acted on a request. The
    /// failures that arise before anything is sent leave nothing open.
    pub open spec fn spec_may_have_taken_effect(&self) -> bool {
        match *self {
            LightningError::Backend(fault) => fault.spec_may_have_taken_effect(),
            _ => false,
        }
    }

    /// Whether the failure leaves open that the node acted on a request.
    #[verifier::when_used_as_spec(spec_may_have_taken_effect)]
    pub fn may_have_taken_effect(&self) -> (uncertain: bool)
        ensures
            uncertain == self.spec_may_have_taken_effect(),
    {
        match self {
            LightningError::Backend(fault) => fault.may_have_taken_effect(),
            _ => false,
        }
    }
}

} // verus!
