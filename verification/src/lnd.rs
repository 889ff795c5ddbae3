//! The backend for an LND node.
//!
//! The requests and answers here are those of LND's gRPC interface, each with
//! the fields that the backend sets or reads; the caller fills the rest of a
//! request with defaults and drops the rest of an answer.
//!
//! Paying moves funds and is not idempotent. A payment whose round trip ended
//! without an answer may still have been made: its error says so (see
//! [`LightningError::may_have_taken_effect`]), and sending the request again
//! may pay twice.

use crate::encoding::{hex_encode, hex_text};
use crate::error::{BackendFault, LightningError};
use crate::invoice::{bolt11_invoice, decode_invoice, require_decoded, DecodedInvoice};
use crate::lightning::Lightning;
use crate::model::{CreateInvoiceResult, PayInvoiceResult, Payment};
use crate::rpc::RoundTrip;
use vstd::prelude::*;
use vstd::slice::slice_to_vec;

verus! {

/// State of an invoice that awaits payment.
pub const INVOICE_OPEN: i32 = 0;

/// State of an invoice that was paid.
pub const INVOICE_SETTLED: i32 = 1;

/// State of an invoice that was canceled.
pub const INVOICE_CANCELED: i32 = 2;

/// State of an invoice for which a payment arrived that is not yet settled.
pub const INVOICE_ACCEPTED: i32 = 3;

/// Asks the node for the invoice with this payment hash.
#[derive(Clone, Debug, PartialEq, Eq)]
pub struct PaymentHash {
    pub r_hash: Vec<u8>,
}

/// An invoice as the node holds it. Of a new invoice the backend sets the
/// value; of an invoice looked up it reads the state.
#[derive(Clone, Copy, Debug, PartialEq, Eq, Structural)]
pub struct Invoice {
    /// The amount in satoshi.
    pub value: i64,
    /// One of the four invoice states.
    pub state: i32,
}

/// The node's answer to a new invoice.
#[derive(Clone, Debug, PartialEq, Eq)]
pub struct AddInvoiceResponse {
    pub r_hash: Vec<u8>,
    pub payment_request: String,
}

/// Asks the node to pay this payment request.
#[derive(Clone, Debug, PartialEq, Eq)]
pub struct SendRequest {
    pub payment_request: String,
}

/// The route that a payment took.
#[derive(Clone, Copy, Debug, PartialEq, Eq, Structural)]
pub struct Route {
    /// The fees of all hops, in millisatoshi.
    pub total_fees_msat: i64,
}

/// The node's answer to a payment.
#[derive(Clone, Debug, PartialEq, Eq)]
pub struct SendResponse {
    /// Empty where the payment went through, else the node's reason.
    pub payment_error: String,
    pub payment_hash: Vec<u8>,
    /// The route taken, where the node reports one.
    pub payment_route: Option<Route>,
}

impl SendResponse {
    /// Whether the node refused the payment: it then gives its reason.
    pub open spec fn is_refusal(&self) -> bool {
        self.payment_error@.len() > 0
    }

    /// Whether the answer is no completed payment: the node refused, or the
    /// fees of the route cannot be fees.
    pub open spec fn is_no_payment(&self) -> bool {
        self.is_refusal() || route_fees(self.payment_route) is Err
    }
}

/// The fees of a payment in millisatoshi: those of its route, and nothing
/// where the answer carries no route. A route with negative fees is no
/// answer to read fees from.
pub open spec fn route_fees(payment_route: Option<Route>) -> Result<u64, LightningError> {
    match payment_route {
        Some(route) => if route.total_fees_msat >= 0 {
            Ok(route.total_fees_msat as u64)
        } else {
            Err(LightningError::Backend(BackendFault::NodeError))
        },
        None => Ok(0),
    }
}

/// The fees of a payment, in millisatoshi. Fails on a route with negative
/// fees, and on no other.
pub fn total_fees(payment_route: Option<Route>) -> (fees: Result<u64, LightningError>)
    ensures
        fees == route_fees(payment_route),
{
    match payment_route {
        Some(route) => {
            if route.total_fees_msat >= 0 {
                Ok(route.total_fees_msat as u64)
            } else {
                Err(LightningError::Backend(BackendFault::NodeError))
            }
        },
        None => Ok(0),
    }
}

/// What is asked of the node to pay `payment_request`, given what decoding
/// it gave: the text as it is, or nothing where it is no invoice.
pub open spec fn payment_of(payment_request: String, decoded: Option<DecodedInvoice>) -> Result<
    SendRequest,
    LightningError,
> {
    match decoded {
        Some(_) => Ok(SendRequest { payment_request }),
        None => Err(LightningError::DecodeInvoice),
    }
}

/// The completed payment in an answer that holds one: its hash in
/// hexadecimal and the fees of its route.
pub open spec fn payment_in_answer(response: SendResponse) -> Payment
    recommends
        !response.is_no_payment(),
{
    Payment {
        payment_hash: hex_text(response.payment_hash@),
        total_fees: route_fees(response.payment_route).unwrap(),
    }
}

/// The payment, or the failure to pay, for each outcome of the round trip.
///
/// A fault of the round trip is that fault. An answer that carries a payment
/// error, or a route with negative fees, is an error of the node. Any other
/// answer is a completed payment.
pub open spec fn paid(round_trip: RoundTrip<SendResponse>) -> Result<Payment, LightningError> {
    match round_trip.outcome() {
        Ok(response) => if response.is_no_payment() {
            Err(LightningError::Backend(BackendFault::NodeError))
        } else {
            Ok(payment_in_answer(response))
        },
        Err(e) => Err(e),
    }
}

/// The payment that a result of paying stands for.
pub open spec fn payment_in(r: Result<PayInvoiceResult, LightningError>) -> Result<
    Payment,
    LightningError,
> {
    match r {
        Ok(result) => Ok(result@),
        Err(e) => Err(e),
    }
}

/// What is asked of the node to register an invoice over `amount` satoshi.
/// The node's amount field is signed, so an amount beyond its range has no
/// request.
pub open spec fn invoice_over(amount: u64) -> Result<Invoice, LightningError> {
    if amount <= i64::MAX {
        Ok(Invoice { value: amount as i64, state: INVOICE_OPEN })
    } else {
        Err(LightningError::InvalidAmount)
    }
}

/// The invoice in the node's answer: its hash and its payment request, both
/// as they came.
pub open spec fn invoice_in_answer(response: AddInvoiceResponse) -> CreateInvoiceResult {
    CreateInvoiceResult {
        payment_hash: response.r_hash,
        payment_request: response.payment_request,
    }
}

/// The created invoice for each outcome of the round trip.
pub open spec fn created(round_trip: RoundTrip<AddInvoiceResponse>) -> Result<
    CreateInvoiceResult,
    LightningError,
> {
    match round_trip.outcome() {
        Ok(response) => Ok(invoice_in_answer(response)),
        Err(e) => Err(e),
    }
}

/// The payment hash that is asked for to look an invoice up, given what
/// decoding the payment request gave: the hash of the invoice, or nothing
/// where the text is no invoice.
pub open spec fn lookup_of(decoded: Option<DecodedInvoice>) -> Result<Seq<u8>, LightningError> {
    match decoded {
        Some(invoice) => Ok(invoice.payment_hash@),
        None => Err(LightningError::DecodeInvoice),
    }
}

/// The payment hash that a lookup request asks for, where there is a request.
pub open spec fn asked_hash(r: Result<PaymentHash, LightningError>) -> Result<
    Seq<u8>,
    LightningError,
> {
    match r {
        Ok(request) => Ok(request.r_hash@),
        Err(e) => Err(e),
    }
}

/// Whether the looked-up invoice is paid, for each outcome of the round trip:
/// true for the settled state and false for every other.
pub open spec fn invoice_paid(round_trip: RoundTrip<Invoice>) -> Result<bool, LightningError> {
    match round_trip.outcome() {
        Ok(invoice) => Ok(invoice.state == INVOICE_SETTLED),
        Err(e) => Err(e),
    }
}

/// The backend for an LND node, around the session to it.
///
/// The backend owns the session and never looks into it: the caller that
/// made it borrows it for each request, one caller at a time.
pub struct LndLightning<S> {
    session: S,
}

impl<S> LndLightning<S> {
    /// The session that the backend was made around.
    pub closed spec fn spec_session(&self) -> &S {
        &self.session
    }

    /// The backend around the session that an attempt to connect gave. A
    /// failed attempt is a connect error, whatever its reason, and makes no
    /// backend.
    pub fn new<E>(attempt: Result<S, E>) -> (r: Result<Self, LightningError>)
        ensures
            attempt matches Ok(session) ==> (r matches Ok(backend) && *backend.session()
                == session),
            attempt is Err ==> (r matches Err(e) && e == LightningError::ConnectError),
    {
        match attempt {
            Ok(session) => Ok(LndLightning { session }),
            Err(_) => Err(LightningError::ConnectError),
        }
    }

    /// The session, to send a request over it.
    #[verifier::when_used_as_spec(spec_session)]
    pub fn session(&self) -> (session: &S)
        ensures
            session == self.spec_session(),
    {
        &self.session
    }

    /// The request that looks an invoice up, given what decoding the payment
    /// request gave: it asks for the invoice's payment hash. A text that is
    /// no invoice is refused and no request comes of it.
    pub fn is_invoice_paid_request_for(&self, decoded: Option<DecodedInvoice>) -> (r: Result<
        PaymentHash,
        LightningError,
    >)
        ensures
            asked_hash(r) == lookup_of(decoded),
    {
        match require_decoded(decoded) {
            Ok(invoice) => Ok(
                PaymentHash { r_hash: slice_to_vec(invoice.payment_hash.as_slice()) },
            ),
            Err(e) => Err(e),
        }
    }

    /// The request that pays `payment_request`, given what decoding it gave.
    /// A text that is no invoice is refused and no request comes of it; a
    /// valid one is handed to the node as it is.
    pub fn pay_invoice_request_for(
        &self,
        payment_request: String,
        decoded: Option<DecodedInvoice>,
    ) -> (r: Result<SendRequest, LightningError>)
        ensures
            r == payment_of(payment_request, decoded),
    {
        match require_decoded(decoded) {
            Ok(_) => Ok(SendRequest { payment_request }),
            Err(e) => Err(e),
        }
    }
}

impl<S> Lightning for LndLightning<S> {
    type LookupRequest = PaymentHash;

    type LookupAnswer = Invoice;

    type InvoiceRequest = Invoice;

    type InvoiceAnswer = AddInvoiceResponse;

    type PaymentRequest = SendRequest;

    type PaymentAnswer = SendResponse;

    /// The node's amount field is a signed number of 64 bits.
    open spec fn amount_fits(&self, amount: u64) -> bool {
        amount <= i64::MAX
    }

    open spec fn settled(&self, answer: Invoice) -> bool {
        answer.state == INVOICE_SETTLED
    }

    open spec fn registered(&self, answer: AddInvoiceResponse) -> CreateInvoiceResult {
        invoice_in_answer(answer)
    }

    open spec fn refused(&self, answer: SendResponse) -> bool {
        answer.is_no_payment()
    }

    open spec fn payment(&self, answer: SendResponse) -> Payment {
        payment_in_answer(answer)
    }

    /// Asks for the invoice by the payment hash of the decoded payment
    /// request.
    fn is_invoice_paid_request(&self, payment_request: &str) -> (r: Result<
        PaymentHash,
        LightningError,
    >)
        ensures
            asked_hash(r) == lookup_of(bolt11_invoice(payment_request@)),
    {
        match decode_invoice(payment_request) {
            Ok(invoice) => self.is_invoice_paid_request_for(Some(invoice)),
            Err(_) => self.is_invoice_paid_request_for(None),
        }
    }

    /// True for the settled state and false for every other.
    fn is_invoice_paid(&self, round_trip: RoundTrip<Invoice>) -> (r: Result<bool, LightningError>)
        ensures
            r == invoice_paid(round_trip),
    {
        match round_trip.answer() {
            Ok(invoice) => Ok(invoice.state == INVOICE_SETTLED),
            Err(e) => Err(e),
        }
    }

    /// Asks for an invoice over exactly `amount`: none is cut to fit.
    fn create_invoice_request(&self, amount: u64) -> (r: Result<Invoice, LightningError>)
        ensures
            r == invoice_over(amount),
    {
        if amount <= i64::MAX as u64 {
            Ok(Invoice { value: amount as i64, state: INVOICE_OPEN })
        } else {
            Err(LightningError::InvalidAmount)
        }
    }

    /// Hands on the hash and the payment request of the node's answer.
    /// Nothing of the answer is changed, and nothing is made up where there
    /// is no answer.
    fn create_invoice(&self, round_trip: RoundTrip<AddInvoiceResponse>) -> (r: Result<
        CreateInvoiceResult,
        LightningError,
    >)
        ensures
            r == created(round_trip),
    {
        match round_trip.answer() {
            Ok(response) => Ok(
                CreateInvoiceResult {
                    payment_hash: response.r_hash,
                    payment_request: response.payment_request,
                },
            ),
            Err(e) => Err(e),
        }
    }

    /// Hands the payment request to the node as it is, once it has decoded.
    fn pay_invoice_request(&self, payment_request: String) -> (r: Result<
        SendRequest,
        LightningError,
    >)
        ensures
            r == payment_of(payment_request, bolt11_invoice(payment_request@)),
    {
        match decode_invoice(payment_request.as_str()) {
            Ok(invoice) => self.pay_invoice_request_for(payment_request, Some(invoice)),
            Err(_) => self.pay_invoice_request_for(payment_request, None),
        }
    }

    /// No refusal and no fault comes back as a payment. The fees are those
    /// of the route as the node gave them, and nothing where the answer
    /// carries no route; an answer whose route has negative fees is no
    /// payment to report.
    fn pay_invoice(&self, round_trip: RoundTrip<SendResponse>) -> (r: Result<
        PayInvoiceResult,
        LightningError,
    >)
        ensures
            payment_in(r) == paid(round_trip),
    {
        match round_trip.answer() {
            Ok(response) => {
                if response.payment_error.as_str().is_empty() {
                    match total_fees(response.payment_route) {
                        Ok(fees) => Ok(
                            PayInvoiceResult {
                                payment_hash: hex_encode(&response.payment_hash),
                                total_fees: fees,
                            },
                        ),
                        Err(e) => Err(e),
                    }
                } else {
                    Err(LightningError::Backend(BackendFault::NodeError))
                }
            },
            Err(e) => Err(e),
        }
    }
}

/// An invoice created over an amount asks for that amount, where the node
/// answered the request with a payment request over the value it was asked
/// for: what the backend hands on decodes to `amount` satoshi, counted in
/// millisatoshi.
pub proof fn lemma_created_invoice_asks_for_amount(amount: u64, response: AddInvoiceResponse)
    requires
        amount <= i64::MAX,
        bolt11_invoice(response.payment_request@) is Some,
        bolt11_invoice(response.payment_request@).unwrap().amount_msat is Some,
        bolt11_invoice(response.payment_request@).unwrap().amount_msat.unwrap()
            == invoice_over(amount).unwrap().value * 1000,
    ensures
        created(RoundTrip::Answered(response)) is Ok,
        bolt11_invoice(created(RoundTrip::Answered(response)).unwrap().payment_request@)
            is Some,
        bolt11_invoice(
            created(RoundTrip::Answered(response)).unwrap().payment_request@,
        ).unwrap().amount_msat is Some,
        bolt11_invoice(
            created(RoundTrip::Answered(response)).unwrap().payment_request@,
        ).unwrap().amount_msat.unwrap() == amount * 1000,
{
}

/// A payment request that does not decode is refused by both operations that
/// take one, with the same error. Neither has a request to send, so the node
/// has seen nothing.
pub proof fn lemma_undecodable_request_sends_nothing(payment_request: String)
    requires
        bolt11_invoice(payment_request@) is None,
    ensures
        lookup_of(bolt11_invoice(payment_request@)) == Err::<Seq<u8>, LightningError>(
            LightningError::DecodeInvoice,
        ),
        payment_of(payment_request, bolt11_invoice(payment_request@)) == Err::<
            SendRequest,
            LightningError,
        >(LightningError::DecodeInvoice),
        !LightningError::DecodeInvoice.may_have_taken_effect(),
{
}

/// Looking an invoice up reads the state that the node reports and nothing
/// else. As long as the node reports a state other than settled the answer
/// is `false`, however often it is asked; once it reports the settled state
/// the answer is `true`.
pub proof fn lemma_lookup_reads_state_alone(first: Invoice, second: Invoice)
    ensures
        first.state == second.state ==> invoice_paid(RoundTrip::Answered(first))
            == invoice_paid(RoundTrip::Answered(second)),
        invoice_paid(RoundTrip::Answered(first)) is Ok,
        invoice_paid(RoundTrip::Answered(first)).unwrap() <==> first.state == INVOICE_SETTLED,
{
}

/// The fees of a completed payment are the fees of its route, as the node
/// gave them: a number of millisatoshi that is not negative. A payment whose
/// answer carries no route has cost nothing. An answer whose route has
/// negative fees is never a completed payment.
pub proof fn lemma_fees_of_payment(response: SendResponse)
    requires
        !response.is_refusal(),
    ensures
        response.payment_route is None ==> paid(RoundTrip::Answered(response)) is Ok && paid(
            RoundTrip::Answered(response),
        ).unwrap().total_fees == 0,
        response.payment_route is Some && response.payment_route.unwrap().total_fees_msat >= 0
            ==> paid(RoundTrip::Answered(response)) is Ok && paid(
            RoundTrip::Answered(response),
        ).unwrap().total_fees == response.payment_route.unwrap().total_fees_msat,
        response.payment_route is Some && response.payment_route.unwrap().total_fees_msat < 0
            ==> paid(RoundTrip::Answered(response)) == Err::<Payment, LightningError>(
            LightningError::Backend(BackendFault::NodeError),
        ),
        paid(RoundTrip::Answered(response)) is Ok ==> paid(
            RoundTrip::Answered(response),
        ).unwrap().total_fees <= i64::MAX,
{
}

/// A completed payment names the invoice that was paid, where the node
/// answered with the payment hash of the payment request it was sent: the
/// result holds that hash, in sixty-four hexadecimal digits.
pub proof fn lemma_payment_names_the_invoice(payment_request: String, response: SendResponse)
    requires
        bolt11_invoice(payment_request@) is Some,
        response.payment_hash@ == bolt11_invoice(payment_request@).unwrap().payment_hash@,
        !response.is_no_payment(),
    ensures
        payment_of(payment_request, bolt11_invoice(payment_request@)) is Ok,
        paid(RoundTrip::Answered(response)) is Ok,
        paid(RoundTrip::Answered(response)).unwrap().payment_hash == hex_text(
            bolt11_invoice(payment_request@).unwrap().payment_hash@,
        ),
        paid(RoundTrip::Answered(response)).unwrap().payment_hash.len() == 64,
{
}

} // verus!
