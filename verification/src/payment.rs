//! What the mint asks of the backend, and what it gets in return.

use crate::amount::Amount;
use cdk_common::lightning_invoice::ParseOrSemanticError;
use std::collections::HashMap;
use vstd::prelude::*;

verus! {

/// What a payment is known by.
#[derive(Debug, PartialEq, Eq)]
pub enum PaymentIdentifier {
    Label(String),
    OfferId(String),
    PaymentHash([u8; 32]),
    Bolt12PaymentHash([u8; 32]),
    PaymentId([u8; 32]),
    CustomId(String),
}

impl Clone for PaymentIdentifier {
    fn clone(&self) -> (identifier: Self)
        ensures
            identifier == *self,
    {
        match self {
            PaymentIdentifier::Label(text) => PaymentIdentifier::Label(text.clone()),
            PaymentIdentifier::OfferId(text) => PaymentIdentifier::OfferId(text.clone()),
            PaymentIdentifier::PaymentHash(hash) => PaymentIdentifier::PaymentHash(*hash),
            PaymentIdentifier::Bolt12PaymentHash(hash) => {
                PaymentIdentifier::Bolt12PaymentHash(*hash)
            },
            PaymentIdentifier::PaymentId(id) => PaymentIdentifier::PaymentId(*id),
            PaymentIdentifier::CustomId(text) => PaymentIdentifier::CustomId(text.clone()),
        }
    }
}

/// What an invoice is wanted for.
#[derive(Debug)]
pub struct Bolt11IncomingPaymentOptions {
    pub description: Option<String>,
    /// In sats; 0 asks for an invoice without an amount.
    pub amount: u64,
    /// The Unix time, in seconds, at which the invoice expires.
    pub unix_expiry: Option<u64>,
}

/// How a payment to the mint is to be made.
#[derive(Debug)]
pub enum IncomingPaymentOptions {
    Bolt11(Bolt11IncomingPaymentOptions),
    Bolt12,
    Custom,
}

/// How a payment of the mint is to be made.
#[derive(Debug)]
pub enum OutgoingPaymentOptions {
    /// Pays the invoice that `bolt11` spells.
    Bolt11 { bolt11: String },
    Bolt12,
    Custom,
}

/// The state of a quote for an outgoing payment.
#[derive(Debug, Clone, Copy, PartialEq, Eq, Structural)]
pub enum MeltQuoteState {
    Unpaid,
    Paid,
    Pending,
    Unknown,
    Failed,
}

/// An invoice for a payment to the mint.
#[derive(Debug, PartialEq, Eq)]
pub struct CreateIncomingPaymentResponse {
    pub request_lookup_id: PaymentIdentifier,
    pub request: String,
    pub expiry: Option<u64>,
    pub extra_json: Option<String>,
}

/// What an outgoing payment would cost.
#[derive(Debug, PartialEq, Eq)]
pub struct PaymentQuoteResponse {
    pub request_lookup_id: Option<PaymentIdentifier>,
    pub amount: Amount,
    pub fee: Amount,
    pub state: MeltQuoteState,
}

/// What became of an outgoing payment.
#[derive(Debug, PartialEq, Eq)]
pub struct MakePaymentResponse {
    pub payment_lookup_id: PaymentIdentifier,
    pub payment_proof: Option<String>,
    pub status: MeltQuoteState,
    pub total_spent: Amount,
}

/// A payment that reached the mint.
#[derive(Debug, PartialEq, Eq)]
pub struct WaitPaymentResponse {
    pub payment_identifier: PaymentIdentifier,
    pub payment_amount: Amount,
    pub payment_id: String,
}

/// What the mint is told without asking.
#[derive(Debug, PartialEq, Eq)]
pub enum Event {
    PaymentReceived(WaitPaymentResponse),
}

#[derive(Debug, PartialEq, Eq)]
pub struct Bolt11Settings {
    pub mpp: bool,
    pub amountless: bool,
    pub invoice_description: bool,
}

#[derive(Debug, PartialEq, Eq)]
pub struct Bolt12Settings {
    pub amountless: bool,
}

/// What the backend can do.
#[derive(Debug, PartialEq, Eq)]
pub struct SettingsResponse {
    pub unit: String,
    pub bolt11: Option<Bolt11Settings>,
    pub bolt12: Option<Bolt12Settings>,
    pub custom: HashMap<String, String>,
}

/// Why the backend could not do what it was asked. `E` is the SDK's own error.
#[derive(Debug, PartialEq, Eq)]
pub enum Error<E> {
    /// The backend knows BOLT11 only.
    UnsupportedPaymentOption,
    /// The invoice would have expired before it was made.
    AmountMismatch,
    /// The SDK failed.
    Lightning(E),
    /// The text that should be an invoice is none.
    Parse(ParseOrSemanticError),
    Custom(String),
}

impl<E> Error<E> {
    /// The error is one of the backend's own and says `text`.
    pub open spec fn says(self, text: Seq<char>) -> bool {
        self matches Error::Custom(message) && message@ == text
    }
}

} // verus!
