//! A Lightning payment backend for a custodial mint, in two halves.
//!
//! The half in this crate decides: what is asked of the node for each of the
//! three operations of a backend (look an invoice up, create one, pay one), and
//! what the node's answer means. It performs no I/O. The caller owns the
//! session to the node, sends each request over it, one at a time, and hands
//! back what came of the round trip.
//!
//! * [`error`]: the failures a caller can branch on.
//! * [`model`]: the results of creating and of paying an invoice.
//! * [`encoding`]: how a payment hash is written as text.
//! * [`invoice`]: decoding a payment request.
//! * [`rpc`]: what came of one request to the node.
//! * [`lightning`]: the interface of a backend, with what holds of every one.
//! * [`lnd`]: the backend for an LND node.
//! * [`settings`]: where the node is and which credentials open it.

pub mod encoding;
pub mod error;
pub mod invoice;
pub mod lightning;
pub mod lnd;
pub mod model;
pub mod rpc;
pub mod settings;
