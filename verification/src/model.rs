//! What the operations of a backend hand back.

use vstd::prelude::*;

verus! {

/// A receivable invoice that the node registered.
#[derive(Clone, Debug, PartialEq, Eq)]
pub struct CreateInvoiceResult {
    /// Identifies the invoice when its status is looked up later.
    pub payment_hash: Vec<u8>,
    /// What the payer presents.
    pub payment_request: String,
}

/// A completed outbound payment and its cost.
#[derive(Clone, Debug, PartialEq, Eq)]
pub struct PayInvoiceResult {
    /// The payment hash in lower-case hexadecimal.
    pub payment_hash: String,
    /// The fees of the route taken, in millisatoshi.
    pub total_fees: u64,
}

/// A completed payment as contracts speak of it: the text of its hash, and
/// its fees.
pub struct Payment {
    pub payment_hash: Seq<char>,
    pub total_fees: u64,
}

impl View for PayInvoiceResult {
    type V = Payment;

    open spec fn view(&self) -> Payment {
        Payment { payment_hash: self.payment_hash@, total_fees: self.total_fees }
    }
}

} // verus!
