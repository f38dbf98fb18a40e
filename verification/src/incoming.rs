//! Payments to the mint: making an invoice.

use crate::amount::{low_32_bits, truncate_to_u32, CurrencyUnit};
use crate::backend::BreezBackend;
use crate::clock::{clock_read, read_clock};
use crate::invoice::{invoice_payment_hash, read_payment_hash, read_view, ReadHash};
use crate::payment::{
    Bolt11IncomingPaymentOptions, CreateIncomingPaymentResponse, Error, IncomingPaymentOptions,
    PaymentIdentifier,
};
use crate::quote::Quote;
use crate::sdk::{ReceivePaymentMethod, ReceivePaymentRequest, ReceivePaymentResponse};
use cdk_common::lightning_invoice::ParseOrSemanticError;
use vstd::prelude::*;

verus! {

/// An invoice was asked for.
#[derive(Debug, PartialEq, Eq)]
pub struct AwaitInvoice;

/// The quote is to be inserted into the table of mint quotes.
#[derive(Debug, PartialEq, Eq)]
pub struct AwaitMintStore {
    pub quote: Quote,
}

impl Bolt11IncomingPaymentOptions {
    /// What the invoice says it is for.
    pub open spec fn invoice_description(self) -> Seq<char> {
        match self.description {
            Some(text) => text@,
            None => "Payment"@,
        }
    }

    /// The amount of the invoice, if it has one.
    pub open spec fn invoice_amount(self) -> Option<u64> {
        if self.amount > 0 {
            Some(self.amount)
        } else {
            None
        }
    }

    /// The wanted expiry had passed at `now`.
    pub open spec fn expired(self, now: u64) -> bool {
        self.unix_expiry matches Some(expiry) && expiry < now
    }

    /// For how many seconds from `now` the invoice is good, in the 32 bits that the SDK takes.
    pub open spec fn seconds_left(self, now: u64) -> Option<u32> {
        match self.unix_expiry {
            Some(expiry) => Some(low_32_bits(expiry - now) as u32),
            None => None,
        }
    }
}

impl ReceivePaymentRequest {
    /// The request asks for the invoice that `options` want at `now`.
    pub open spec fn asks_for(self, options: Bolt11IncomingPaymentOptions, now: u64) -> bool {
        match self.payment_method {
            ReceivePaymentMethod::Bolt11Invoice {
                description,
                amount_sats,
                expiry_secs,
                payment_hash,
            } => {
                &&& description@ == options.invoice_description()
                &&& amount_sats == options.invoice_amount()
                &&& expiry_secs == options.seconds_left(now)
                &&& payment_hash is None
            },
        }
    }
}

/// What becomes of a request for an invoice that is made at `now`: only an invoice that has not
/// expired by then is asked for.
pub open spec fn invoice_requested<E>(
    options: IncomingPaymentOptions,
    now: u64,
    result: Result<(ReceivePaymentRequest, AwaitInvoice), Error<E>>,
) -> bool {
    match options {
        IncomingPaymentOptions::Bolt11(options) => if options.expired(now) {
            result == Err::<(ReceivePaymentRequest, AwaitInvoice), Error<E>>(Error::AmountMismatch)
        } else {
            result matches Ok((request, _)) && request.asks_for(options, now)
        },
        _ => result == Err::<(ReceivePaymentRequest, AwaitInvoice), Error<E>>(
            Error::UnsupportedPaymentOption,
        ),
    }
}

/// What becomes of the SDK's invoice, once reading it gave `read`.
pub open spec fn invoice_quoted<E>(
    response: ReceivePaymentResponse,
    read: Result<Seq<u8>, ParseOrSemanticError>,
    result: Result<AwaitMintStore, Error<E>>,
) -> bool {
    match read {
        Ok(hash) => result matches Ok(next) && next.quote.payment_hash@ == hash
            && next.quote.payment_request == response.payment_request,
        Err(reason) => result == Err::<AwaitMintStore, Error<E>>(Error::Parse(reason)),
    }
}

/// What becomes of the SDK's reply to the request for an invoice.
pub open spec fn invoice_received<E>(
    reply: Result<ReceivePaymentResponse, E>,
    result: Result<AwaitMintStore, Error<E>>,
) -> bool {
    match reply {
        Ok(response) => invoice_quoted(
            response,
            invoice_payment_hash(response.payment_request@),
            result,
        ),
        Err(error) => result == Err::<AwaitMintStore, Error<E>>(Error::Lightning(error)),
    }
}

/// What the mint is told once its quote was stored, or was not.
pub open spec fn mint_quote_stored<E>(
    quote: Quote,
    stored: Result<(), String>,
    result: Result<CreateIncomingPaymentResponse, Error<E>>,
) -> bool {
    match stored {
        Ok(()) => result == Ok::<CreateIncomingPaymentResponse, Error<E>>(
            CreateIncomingPaymentResponse {
                request_lookup_id: PaymentIdentifier::PaymentHash(quote.payment_hash),
                request: quote.payment_request,
                expiry: None,
                extra_json: None,
            },
        ),
        Err(text) => result == Err::<CreateIncomingPaymentResponse, Error<E>>(Error::Custom(text)),
    }
}

impl BreezBackend {
    /// Asks for an invoice that the mint can be paid by. The time at which it expires is counted
    /// from what the clock says.
    pub fn create_incoming_payment_request<E>(
        &self,
        _unit: &CurrencyUnit,
        options: IncomingPaymentOptions,
    ) -> (result: Result<(ReceivePaymentRequest, AwaitInvoice), Error<E>>)
        ensures
            exists|now: u64|
                clock_read(now) && #[trigger] invoice_requested(options, now, result),
    {
        let now: u64 = read_clock();
        self.create_incoming_payment_request_at(options, now)
    }

    /// Asks for an invoice that the mint can be paid by, with the clock at `now`.
    pub fn create_incoming_payment_request_at<E>(
        &self,
        options: IncomingPaymentOptions,
        now: u64,
    ) -> (result: Result<(ReceivePaymentRequest, AwaitInvoice), Error<E>>)
        ensures
            invoice_requested(options, now, result),
    {
        match options {
            IncomingPaymentOptions::Bolt11(options) => {
                let description = match options.description {
                    Some(text) => text,
                    None => "Payment".to_owned(),
                };
                let amount_sats = if options.amount > 0 {
                    Some(options.amount)
                } else {
                    None
                };
                let expiry_secs = match options.unix_expiry {
                    Some(expiry) => match expiry.checked_sub(now) {
                        Some(seconds) => Some(truncate_to_u32(seconds)),
                        None => {
                            return Err(Error::AmountMismatch);
                        },
                    },
                    None => None,
                };
                let payment_method = ReceivePaymentMethod::Bolt11Invoice {
                    description,
                    amount_sats,
                    expiry_secs,
                    payment_hash: None,
                };
                Ok((ReceivePaymentRequest { payment_method }, AwaitInvoice))
            },
            _ => Err(Error::UnsupportedPaymentOption),
        }
    }
}

impl AwaitInvoice {
    /// Takes the SDK's reply. A readable invoice becomes a quote that is to be stored.
    pub fn resume<E>(self, reply: Result<ReceivePaymentResponse, E>) -> (result: Result<
        AwaitMintStore,
        Error<E>,
    >)
        ensures
            invoice_received(reply, result),
    {
        match reply {
            Ok(response) => {
                let read = read_payment_hash(response.payment_request.as_str());
                self.resume_read(response, read)
            },
            Err(error) => Err(Error::Lightning(error)),
        }
    }

    /// Takes the SDK's invoice and what reading it gave.
    pub fn resume_read<E>(self, response: ReceivePaymentResponse, read: ReadHash) -> (result:
        Result<AwaitMintStore, Error<E>>)
        ensures
            invoice_quoted(response, read_view(read), result),
    {
        match read {
            Ok(payment_hash) => {
                let quote = Quote { payment_hash, payment_request: response.payment_request };
                Ok(AwaitMintStore { quote })
            },
            Err(reason) => Err(Error::Parse(reason)),
        }
    }
}

impl AwaitMintStore {
    /// Takes the outcome of storing the quote, a failure as its text.
    pub fn resume<E>(self, stored: Result<(), String>) -> (result: Result<
        CreateIncomingPaymentResponse,
        Error<E>,
    >)
        ensures
            mint_quote_stored(self.quote, stored, result),
    {
        match stored {
            Ok(()) => Ok(
                CreateIncomingPaymentResponse {
                    request_lookup_id: PaymentIdentifier::PaymentHash(self.quote.payment_hash),
                    request: self.quote.payment_request,
                    expiry: None,
                    extra_json: None,
                },
            ),
            Err(text) => Err(Error::Custom(text)),
        }
    }
}

} // verus!
