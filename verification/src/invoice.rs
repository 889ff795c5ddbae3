//! Decoding a payment request.

use crate::error::LightningError;
use lightning_invoice::Bolt11Invoice;
use vstd::prelude::*;

verus! {

/// What the backend reads from a payment request once it is decoded.
#[derive(Clone, Copy, Debug, PartialEq, Eq)]
pub struct DecodedInvoice {
    /// The hash under which the node knows the invoice.
    pub payment_hash: [u8; 32],
    /// The amount asked for, in millisatoshi. It is absent where the invoice
    /// names none, and also where it names one too large to be counted in
    /// 64 bits.
    pub amount_msat: Option<u64>,
}

/// What decoding `payment_request` as a BOLT11 invoice gives: the fields of
/// the invoice, or `None` where the text is no valid invoice. The decoder
/// works on the text alone, without clock or network.
pub uninterp spec fn bolt11_invoice(payment_request: Seq<char>) -> Option<DecodedInvoice>;

/// Calls `Bolt11Invoice::from_str` of lightning-invoice, and reads the payment
/// hash and the amount in millisatoshi from the invoice it returns. Trusted:
/// that the outcome is a function of the text, named [`bolt11_invoice`].
#[verifier::external_body]
fn parse_bolt11(payment_request: &str) -> (decoded: Option<DecodedInvoice>)
    ensures
        decoded == bolt11_invoice(payment_request@),
{
    match payment_request.parse::<Bolt11Invoice>() {
        Ok(invoice) => Some(
            DecodedInvoice {
                payment_hash: *AsRef::<[u8; 32]>::as_ref(invoice.payment_hash()),
                amount_msat: invoice.amount_milli_satoshis(),
            },
        ),
        Err(_) => None,
    }
}

/// What a decoding attempt comes to: the invoice, or the failure to decode.
pub open spec fn decoding(decoded: Option<DecodedInvoice>) -> Result<
    DecodedInvoice,
    LightningError,
> {
    match decoded {
        Some(invoice) => Ok(invoice),
        None => Err(LightningError::DecodeInvoice),
    }
}

/// The invoice behind a decoding attempt, or the failure to decode where the
/// attempt gave nothing.
pub fn require_decoded(decoded: Option<DecodedInvoice>) -> (r: Result<
    DecodedInvoice,
    LightningError,
>)
    ensures
        r == decoding(decoded),
{
    match decoded {
        Some(invoice) => Ok(invoice),
        None => Err(LightningError::DecodeInvoice),
    }
}

/// Decodes a payment request. Fails with [`LightningError::DecodeInvoice`]
/// exactly when the text is no valid invoice.
pub fn decode_invoice(payment_request: &str) -> (r: Result<DecodedInvoice, LightningError>)
    ensures
        r == decoding(bolt11_invoice(payment_request@)),
{
    require_decoded(parse_bolt11(payment_request))
}

} // verus!
