//! Payments of the mint: what one would cost, and making it.

use crate::amount::{low_64_bits, truncate_to_u64, Amount, CurrencyUnit};
use crate::backend::BreezBackend;
use crate::invoice::{invoice_payment_hash, read_payment_hash, read_view, ReadHash};
use crate::payment::{
    Error, MakePaymentResponse, MeltQuoteState, OutgoingPaymentOptions, PaymentIdentifier,
    PaymentQuoteResponse,
};
use crate::quote::Quote;
use crate::sdk::{
    Payment, PrepareSendPaymentRequest, PrepareSendPaymentResponse, SendPaymentMethod,
    SendPaymentRequest, Unset,
};
use cdk_common::lightning_invoice::ParseOrSemanticError;
use vstd::prelude::*;

verus! {

/// The cost of paying `bolt11` was asked for, to be quoted in `unit`.
#[derive(Debug, PartialEq, Eq)]
pub struct AwaitQuote {
    pub bolt11: String,
    pub unit: CurrencyUnit,
}

/// The quote is to be inserted into the table of melt quotes.
#[derive(Debug, PartialEq, Eq)]
pub struct AwaitMeltStore {
    pub quote: Quote,
    pub amount: u64,
    pub fee: u64,
    pub unit: CurrencyUnit,
}

/// The preparation of a payment of `bolt11` was asked for.
#[derive(Debug, PartialEq, Eq)]
pub struct AwaitPreparation {
    pub bolt11: String,
}

/// The payment of `bolt11` was asked for.
#[derive(Debug, PartialEq, Eq)]
pub struct AwaitSent {
    pub bolt11: String,
}

impl PrepareSendPaymentRequest {
    /// Asks what paying the invoice `bolt11` takes, for the amount of the invoice.
    pub open spec fn prepares(self, bolt11: Seq<char>) -> bool {
        &&& self.payment_request@ == bolt11
        &&& self.amount is None
        &&& self.token_identifier is None
    }

    fn for_invoice(bolt11: &String) -> (request: Self)
        ensures
            request.prepares(bolt11@),
    {
        PrepareSendPaymentRequest {
            payment_request: bolt11.clone(),
            amount: None,
            token_identifier: None,
            conversion_options: Unset,
            fee_policy: Unset,
        }
    }
}

impl PrepareSendPaymentResponse {
    /// The fees of a payment over Lightning. No other way of sending has one.
    pub open spec fn fee(self) -> int {
        match self.payment_method {
            SendPaymentMethod::Bolt11Invoice { spark_transfer_fee_sats, lightning_fee_sats } => {
                let transfer: u64 = match spark_transfer_fee_sats {
                    Some(sats) => sats,
                    None => 0,
                };
                transfer + lightning_fee_sats
            },
            SendPaymentMethod::Other => 0,
        }
    }

    /// The sum of the fees is a number that an amount can hold.
    pub open spec fn fee_fits(self) -> bool {
        self.fee() <= u64::MAX
    }

    /// Whether the fees can be added up.
    pub fn has_fee(&self) -> (fits: bool)
        ensures
            fits == self.fee_fits(),
    {
        match &self.payment_method {
            SendPaymentMethod::Bolt11Invoice { spark_transfer_fee_sats, lightning_fee_sats } => {
                match spark_transfer_fee_sats {
                    Some(sats) => sats.checked_add(*lightning_fee_sats).is_some(),
                    None => true,
                }
            },
            SendPaymentMethod::Other => true,
        }
    }

    fn fee_sats(&self) -> (sats: u64)
        requires
            self.fee_fits(),
        ensures
            sats == self.fee(),
    {
        match &self.payment_method {
            SendPaymentMethod::Bolt11Invoice { spark_transfer_fee_sats, lightning_fee_sats } => {
                let transfer: u64 = match spark_transfer_fee_sats {
                    Some(sats) => *sats,
                    None => 0,
                };
                transfer + *lightning_fee_sats
            },
            SendPaymentMethod::Other => 0,
        }
    }
}

/// What becomes of a request for a quote in `unit`.
pub open spec fn quote_requested<E>(
    unit: CurrencyUnit,
    options: OutgoingPaymentOptions,
    result: Result<(PrepareSendPaymentRequest, AwaitQuote), Error<E>>,
) -> bool {
    match options {
        OutgoingPaymentOptions::Bolt11 { bolt11 } => result matches Ok((request, next))
            && request.prepares(bolt11@) && next == (AwaitQuote { bolt11, unit }),
        _ => result == Err::<(PrepareSendPaymentRequest, AwaitQuote), Error<E>>(
            Error::UnsupportedPaymentOption,
        ),
    }
}

/// What becomes of the cost that the SDK gave, once reading the invoice gave `read`.
pub open spec fn cost_quoted<E>(
    state: AwaitQuote,
    response: PrepareSendPaymentResponse,
    read: Result<Seq<u8>, ParseOrSemanticError>,
    result: Result<AwaitMeltStore, Error<E>>,
) -> bool {
    match read {
        Ok(hash) => {
            &&& result matches Ok(next)
            &&& next.quote.payment_hash@ == hash
            &&& next.quote.payment_request == state.bolt11
            &&& next.amount == low_64_bits(response.amount as int)
            &&& next.fee == response.fee()
            &&& next.unit == state.unit
        },
        Err(reason) => result == Err::<AwaitMeltStore, Error<E>>(Error::Parse(reason)),
    }
}

/// What becomes of the SDK's reply to the request for the cost.
pub open spec fn cost_received<E>(
    state: AwaitQuote,
    reply: Result<PrepareSendPaymentResponse, E>,
    result: Result<AwaitMeltStore, Error<E>>,
) -> bool {
    match reply {
        Ok(response) => cost_quoted(state, response, invoice_payment_hash(state.bolt11@), result),
        Err(error) => result == Err::<AwaitMeltStore, Error<E>>(Error::Lightning(error)),
    }
}

/// What the mint is told once its quote was stored, or was not.
pub open spec fn melt_quote_stored<E>(
    state: AwaitMeltStore,
    stored: Result<(), String>,
    result: Result<PaymentQuoteResponse, Error<E>>,
) -> bool {
    match stored {
        Ok(()) => result == Ok::<PaymentQuoteResponse, Error<E>>(
            PaymentQuoteResponse {
                request_lookup_id: Some(PaymentIdentifier::PaymentHash(state.quote.payment_hash)),
                amount: Amount { value: state.amount, unit: state.unit },
                fee: Amount { value: state.fee, unit: state.unit },
                state: MeltQuoteState::Unpaid,
            },
        ),
        Err(text) => result == Err::<PaymentQuoteResponse, Error<E>>(Error::Custom(text)),
    }
}

/// What becomes of a request to pay.
pub open spec fn payment_requested<E>(
    options: OutgoingPaymentOptions,
    result: Result<(PrepareSendPaymentRequest, AwaitPreparation), Error<E>>,
) -> bool {
    match options {
        OutgoingPaymentOptions::Bolt11 { bolt11 } => result matches Ok((request, next))
            && request.prepares(bolt11@) && next == (AwaitPreparation { bolt11 }),
        _ => result == Err::<(PrepareSendPaymentRequest, AwaitPreparation), Error<E>>(
            Error::UnsupportedPaymentOption,
        ),
    }
}

/// What becomes of the SDK's reply to the preparation: it is what is sent.
pub open spec fn payment_prepared<P, E>(
    state: AwaitPreparation,
    reply: Result<P, E>,
    result: Result<(SendPaymentRequest<P>, AwaitSent), Error<E>>,
) -> bool {
    match reply {
        Ok(prepared) => result == Ok::<(SendPaymentRequest<P>, AwaitSent), Error<E>>(
            (
                SendPaymentRequest {
                    prepare_response: prepared,
                    options: Unset,
                    idempotency_key: None,
                },
                AwaitSent { bolt11: state.bolt11 },
            ),
        ),
        Err(error) => result == Err::<(SendPaymentRequest<P>, AwaitSent), Error<E>>(
            Error::Lightning(error),
        ),
    }
}

/// What the mint is told of a payment that was sent, once reading the invoice gave `read`.
pub open spec fn sent_payment_reported<E>(
    payment: Payment,
    read: Result<Seq<u8>, ParseOrSemanticError>,
    result: Result<MakePaymentResponse, Error<E>>,
) -> bool {
    match read {
        Ok(hash) => {
            &&& result matches Ok(response)
            &&& response.payment_lookup_id matches PaymentIdentifier::PaymentHash(h) && h@ == hash
            &&& response.payment_proof is None
            &&& response.status == MeltQuoteState::Paid
            &&& response.total_spent.value == low_64_bits(payment.total())
            &&& response.total_spent.unit == CurrencyUnit::Sat
        },
        Err(reason) => result == Err::<MakePaymentResponse, Error<E>>(Error::Parse(reason)),
    }
}

/// What becomes of the SDK's reply to the request to pay.
pub open spec fn payment_sent<E>(
    state: AwaitSent,
    reply: Result<Payment, E>,
    result: Result<MakePaymentResponse, Error<E>>,
) -> bool {
    match reply {
        Ok(payment) => sent_payment_reported(payment, invoice_payment_hash(state.bolt11@), result),
        Err(error) => result == Err::<MakePaymentResponse, Error<E>>(Error::Lightning(error)),
    }
}

impl BreezBackend {
    /// Asks what paying an invoice would cost.
    pub fn get_payment_quote<E>(
        &self,
        unit: &CurrencyUnit,
        options: OutgoingPaymentOptions,
    ) -> (result: Result<(PrepareSendPaymentRequest, AwaitQuote), Error<E>>)
        ensures
            quote_requested(*unit, options, result),
    {
        match options {
            OutgoingPaymentOptions::Bolt11 { bolt11 } => {
                let request = PrepareSendPaymentRequest::for_invoice(&bolt11);
                Ok((request, AwaitQuote { bolt11, unit: unit.clone() }))
            },
            _ => Err(Error::UnsupportedPaymentOption),
        }
    }

    /// Asks for an invoice to be paid.
    pub fn make_payment<E>(
        &self,
        _unit: &CurrencyUnit,
        options: OutgoingPaymentOptions,
    ) -> (result: Result<(PrepareSendPaymentRequest, AwaitPreparation), Error<E>>)
        ensures
            payment_requested(options, result),
    {
        match options {
            OutgoingPaymentOptions::Bolt11 { bolt11 } => {
                let request = PrepareSendPaymentRequest::for_invoice(&bolt11);
                Ok((request, AwaitPreparation { bolt11 }))
            },
            _ => Err(Error::UnsupportedPaymentOption),
        }
    }
}

impl AwaitQuote {
    /// Takes the SDK's reply. With a readable invoice it becomes a quote that is to be stored.
    pub fn resume<E>(self, reply: Result<PrepareSendPaymentResponse, E>) -> (result: Result<
        AwaitMeltStore,
        Error<E>,
    >)
        requires
            reply matches Ok(response) ==> response.fee_fits(),
        ensures
            cost_received(self, reply, result),
    {
        match reply {
            Ok(response) => {
                let read = read_payment_hash(self.bolt11.as_str());
                self.resume_read(response, read)
            },
            Err(error) => Err(Error::Lightning(error)),
        }
    }

    /// Takes the cost that the SDK gave and what reading the invoice gave.
    pub fn resume_read<E>(self, response: PrepareSendPaymentResponse, read: ReadHash) -> (result:
        Result<AwaitMeltStore, Error<E>>)
        requires
            response.fee_fits(),
        ensures
            cost_quoted(self, response, read_view(read), result),
    {
        let fee: u64 = response.fee_sats();
        let amount: u64 = truncate_to_u64(response.amount);
        match read {
            Ok(payment_hash) => {
                let quote = Quote { payment_hash, payment_request: self.bolt11 };
                Ok(AwaitMeltStore { quote, amount, fee, unit: self.unit })
            },
            Err(reason) => Err(Error::Parse(reason)),
        }
    }
}

impl AwaitMeltStore {
    /// Takes the outcome of storing the quote, a failure as its text.
    pub fn resume<E>(self, stored: Result<(), String>) -> (result: Result<
        PaymentQuoteResponse,
        Error<E>,
    >)
        ensures
            melt_quote_stored(self, stored, result),
    {
        match stored {
            Ok(()) => Ok(
                PaymentQuoteResponse {
                    request_lookup_id: Some(
                        PaymentIdentifier::PaymentHash(self.quote.payment_hash),
                    ),
                    amount: Amount::new(self.amount, self.unit.clone()),
                    fee: Amount::new(self.fee, self.unit),
                    state: MeltQuoteState::Unpaid,
                },
            ),
            Err(text) => Err(Error::Custom(text)),
        }
    }
}

impl AwaitPreparation {
    /// Takes the SDK's reply, and asks for what was prepared to be sent.
    pub fn resume<P, E>(self, reply: Result<P, E>) -> (result: Result<
        (SendPaymentRequest<P>, AwaitSent),
        Error<E>,
    >)
        ensures
            payment_prepared(self, reply, result),
    {
        match reply {
            Ok(prepared) => {
                let request = SendPaymentRequest {
                    prepare_response: prepared,
                    options: Unset,
                    idempotency_key: None,
                };
                Ok((request, AwaitSent { bolt11: self.bolt11 }))
            },
            Err(error) => Err(Error::Lightning(error)),
        }
    }
}

impl AwaitSent {
    /// Takes the SDK's reply.
    pub fn resume<E>(self, reply: Result<Payment, E>) -> (result: Result<
        MakePaymentResponse,
        Error<E>,
    >)
        requires
            reply matches Ok(payment) ==> payment.total_fits(),
        ensures
            payment_sent(self, reply, result),
    {
        match reply {
            Ok(payment) => {
                let read = read_payment_hash(self.bolt11.as_str());
                self.resume_read(payment, read)
            },
            Err(error) => Err(Error::Lightning(error)),
        }
    }

    /// Takes the payment that the SDK made and what reading the invoice gave.
    pub fn resume_read<E>(self, payment: Payment, read: ReadHash) -> (result: Result<
        MakePaymentResponse,
        Error<E>,
    >)
        requires
            payment.total_fits(),
        ensures
            sent_payment_reported(payment, read_view(read), result),
    {
        let total_spent: u64 = payment.total_sats();
        match read {
            Ok(payment_hash) => Ok(
                MakePaymentResponse {
                    payment_lookup_id: PaymentIdentifier::PaymentHash(payment_hash),
                    payment_proof: None,
                    status: MeltQuoteState::Paid,
                    total_spent: Amount::new(total_spent, CurrencyUnit::Sat),
                },
            ),
            Err(reason) => Err(Error::Parse(reason)),
        }
    }
}

} // verus!
