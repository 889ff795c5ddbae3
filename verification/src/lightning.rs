//! What every Lightning backend offers.
//!
//! A backend carries out three operations against its node: it tells whether
//! an invoice is paid, creates an invoice, and pays one. Each operation is
//! one request and the reading of one answer. The backend builds the request,
//! or fails before anything is sent; the caller, which owns the session to
//! the node, sends it and reports the [`RoundTrip`]; the backend reads it.
//!
//! The contracts here hold of every backend. A backend adds what is its own:
//! the shape of its requests and what its node's answers mean.

use crate::error::{BackendFault, LightningError};
use crate::invoice::{bolt11_invoice, decode_invoice, decoding, DecodedInvoice};
use crate::model::{CreateInvoiceResult, PayInvoiceResult, Payment};
use crate::rpc::RoundTrip;
use vstd::prelude::*;

verus! {

/// The three operations of a Lightning backend, each as the request to send
/// and the reading of what came back.
pub trait Lightning {
    /// What is sent to the node to look an invoice up.
    type LookupRequest;

    /// What the node answers to a lookup.
    type LookupAnswer;

    /// What is sent to the node to register an invoice.
    type InvoiceRequest;

    /// What the node answers to a new invoice.
    type InvoiceAnswer;

    /// What is sent to the node to pay an invoice.
    type PaymentRequest;

    /// What the node answers to a payment.
    type PaymentAnswer;

    /// Whether the node's amount field can hold `amount` satoshi.
    spec fn amount_fits(&self, amount: u64) -> bool;

    /// Whether the node's answer to a lookup reports the invoice as settled.
    spec fn settled(&self, answer: Self::LookupAnswer) -> bool;

    /// The invoice that the node's answer to a new invoice holds.
    spec fn registered(&self, answer: Self::InvoiceAnswer) -> CreateInvoiceResult;

    /// Whether the node's answer to a payment is no completed payment: the
    /// node refused to pay, or what it answered cannot be one.
    spec fn refused(&self, answer: Self::PaymentAnswer) -> bool;

    /// The completed payment that the node's answer holds, where it holds one.
    spec fn payment(&self, answer: Self::PaymentAnswer) -> Payment;

    /// Decodes a payment request. Fails with
    /// [`LightningError::DecodeInvoice`] exactly when the text is no valid
    /// invoice.
    fn decode_invoice(&self, payment_request: &str) -> (r: Result<DecodedInvoice, LightningError>)
        ensures
            r == decoding(bolt11_invoice(payment_request@)),
    {
        decode_invoice(payment_request)
    }

    /// The request that looks up the invoice behind `payment_request`. A text
    /// that is no valid invoice is refused, and nothing is sent for it.
    fn is_invoice_paid_request(&self, payment_request: &str) -> (r: Result<
        Self::LookupRequest,
        LightningError,
    >)
        ensures
            bolt11_invoice(payment_request@) is Some ==> r is Ok,
            bolt11_invoice(payment_request@) is None ==> (r matches Err(e) && e
                == LightningError::DecodeInvoice),
    ;

    /// Whether the invoice is paid, from what came of the lookup. Every
    /// answer of the node is a yes or a no: yes where it reports the invoice
    /// as settled. A fault of the round trip comes back as that fault, never
    /// as a no. Looking up changes nothing at the node, so a failed lookup
    /// may be tried again.
    fn is_invoice_paid(&self, round_trip: RoundTrip<Self::LookupAnswer>) -> (r: Result<
        bool,
        LightningError,
    >)
        ensures
            round_trip.fault() matches Some(fault) ==> (r matches Err(e) && e
                == LightningError::Backend(fault)),
            round_trip matches RoundTrip::Answered(answer) ==> (r matches Ok(paid) && paid
                == self.settled(answer)),
    ;

    /// The request that registers an invoice over `amount` satoshi. An amount
    /// that the node's amount field cannot hold is refused, and nothing is
    /// sent for it.
    fn create_invoice_request(&self, amount: u64) -> (r: Result<
        Self::InvoiceRequest,
        LightningError,
    >)
        ensures
            self.amount_fits(amount) ==> r is Ok,
            !self.amount_fits(amount) ==> (r matches Err(e) && e == LightningError::InvalidAmount),
    ;

    /// The invoice that the node registered, from what came of the request.
    /// Every answer of the node is an invoice: the one that it holds. A fault
    /// of the round trip comes back as that fault.
    fn create_invoice(&self, round_trip: RoundTrip<Self::InvoiceAnswer>) -> (r: Result<
        CreateInvoiceResult,
        LightningError,
    >)
        ensures
            round_trip.fault() matches Some(fault) ==> (r matches Err(e) && e
                == LightningError::Backend(fault)),
            round_trip matches RoundTrip::Answered(answer) ==> (r matches Ok(created) && created
                == self.registered(answer)),
    ;

    /// The request that pays the invoice behind `payment_request`. A text that
    /// is no valid invoice is refused, and nothing is sent for it.
    ///
    /// Sending the request moves funds, and sending it twice may pay twice.
    fn pay_invoice_request(&self, payment_request: String) -> (r: Result<
        Self::PaymentRequest,
        LightningError,
    >)
        ensures
            bolt11_invoice(payment_request@) is Some ==> r is Ok,
            bolt11_invoice(payment_request@) is None ==> (r matches Err(e) && e
                == LightningError::DecodeInvoice),
    ;

    /// The payment that was made, from what came of the request. An answer
    /// that is refused is an error of the node; every other answer is the
    /// completed payment that it holds. A fault of the round trip comes back
    /// as that fault: where the request had left, the payment may have been
    /// made all the same, and the error says so.
    fn pay_invoice(&self, round_trip: RoundTrip<Self::PaymentAnswer>) -> (r: Result<
        PayInvoiceResult,
        LightningError,
    >)
        ensures
            round_trip.fault() matches Some(fault) ==> (r matches Err(e) && e
                == LightningError::Backend(fault)),
            round_trip matches RoundTrip::Answered(answer) ==> (r is Err <==> self.refused(
                answer,
            )),
            round_trip matches RoundTrip::Answered(answer) ==> (r matches Err(e) ==> e
                == LightningError::Backend(BackendFault::NodeError)),
            round_trip matches RoundTrip::Answered(answer) ==> (r matches Ok(paid) ==> paid@
                == self.payment(answer)),
    ;
}

} // verus!
