//! Events: telling the mint of payments as they come in.

use crate::amount::{low_64_bits, Amount, CurrencyUnit};
use crate::hash::{hex_bytes, is_payment_hash_text, payment_hash_from_hex};
use crate::payment::{Event, PaymentIdentifier, WaitPaymentResponse};
use crate::sdk::{Payment, PaymentDetails, PaymentType, SdkEvent};
use vstd::prelude::*;

verus! {

impl SdkEvent {
    /// The payment that the mint is told of: one that reached the wallet, over Lightning, and
    /// whose payment hash can be read.
    pub open spec fn received(self) -> Option<Payment> {
        match self {
            SdkEvent::PaymentSucceeded { payment } => match payment.details {
                Some(PaymentDetails::Lightning { payment_hash, .. }) => if payment.payment_type
                    == PaymentType::Receive && is_payment_hash_text(payment_hash@) {
                    Some(payment)
                } else {
                    None
                },
                _ => None,
            },
            SdkEvent::Other => None,
        }
    }

    /// The numbers of the payment, if the mint is to be told of one, can be added up.
    pub open spec fn total_fits(self) -> bool {
        self.received() matches Some(payment) ==> payment.total_fits()
    }

    /// Whether the numbers of the payment, if the mint is to be told of one, can be added up.
    pub fn has_total(&self) -> (fits: bool)
        ensures
            fits == self.total_fits(),
    {
        match self {
            SdkEvent::PaymentSucceeded { payment } => match &payment.details {
                Some(PaymentDetails::Lightning { payment_hash, .. }) => {
                    payment.payment_type != PaymentType::Receive || payment_hash_from_hex(
                        payment_hash.as_str(),
                    ).is_none() || payment.has_total()
                },
                _ => true,
            },
            SdkEvent::Other => true,
        }
    }
}

impl Payment {
    /// The bytes of the payment hash of a payment over Lightning.
    pub open spec fn hash(self) -> Seq<u8> {
        hex_bytes(self.details->Some_0->payment_hash@)
    }

    /// What the mint is told of the payment when it knows it by `identifier`.
    pub open spec fn reported_as(self, identifier: PaymentIdentifier) -> WaitPaymentResponse {
        WaitPaymentResponse {
            payment_identifier: identifier,
            payment_amount: Amount {
                value: low_64_bits(self.total()) as u64,
                unit: CurrencyUnit::Sat,
            },
            payment_id: self.id,
        }
    }

    /// Tells the mint of the payment, which it knows by `identifier`.
    pub fn report(&self, identifier: PaymentIdentifier) -> (response: WaitPaymentResponse)
        requires
            self.total_fits(),
        ensures
            response == self.reported_as(identifier),
    {
        WaitPaymentResponse {
            payment_identifier: identifier,
            payment_amount: Amount::new(self.total_sats(), CurrencyUnit::Sat),
            payment_id: self.id.clone(),
        }
    }
}

/// What the mint is told of an event of the SDK.
pub open spec fn event_reported(event: SdkEvent, reported: Option<Event>) -> bool {
    match event.received() {
        Some(payment) => {
            &&& reported matches Some(Event::PaymentReceived(response))
            &&& response.payment_identifier matches PaymentIdentifier::PaymentHash(hash)
            &&& hash@ == payment.hash()
            &&& response == payment.reported_as(response.payment_identifier)
        },
        None => reported is None,
    }
}

/// Turns an event of the SDK into one for the mint, which is told of payments that it received
/// over Lightning and of nothing else: not of the payments that it made.
pub fn on_event(event: SdkEvent) -> (reported: Option<Event>)
    requires
        event.total_fits(),
    ensures
        event_reported(event, reported),
{
    match event {
        SdkEvent::PaymentSucceeded { payment } => {
            if payment.payment_type != PaymentType::Receive {
                return None;
            }
            match &payment.details {
                Some(PaymentDetails::Lightning { payment_hash, .. }) => match payment_hash_from_hex(
                    payment_hash.as_str(),
                ) {
                    Some(hash) => {
                        let identifier = PaymentIdentifier::PaymentHash(hash);
                        Some(Event::PaymentReceived(payment.report(identifier)))
                    },
                    None => None,
                },
                _ => None,
            }
        },
        SdkEvent::Other => None,
    }
}

} // verus!
