//! What the backend asks of the SDK, and what the SDK replies.

use crate::amount::{low_64_bits, truncate_to_u64};
use vstd::prelude::*;

verus! {

/// An option of the SDK that this backend always leaves unset.
#[derive(Debug, Clone, Copy, PartialEq, Eq, Structural)]
pub struct Unset;

#[derive(Debug, Clone, Copy, PartialEq, Eq, Structural)]
pub enum Network {
    Mainnet,
}

/// How the SDK optimizes what the wallet holds.
#[derive(Debug, Clone, Copy, PartialEq, Eq, Structural)]
pub struct OptimizationConfig {
    pub auto_enabled: bool,
    pub multiplicity: u8,
}

/// The settings that the SDK runs with.
#[derive(Debug, PartialEq, Eq)]
pub struct Config {
    pub api_key: Option<String>,
    pub network: Network,
    pub sync_interval_secs: u32,
    pub max_deposit_claim_fee: Unset,
    pub lnurl_domain: Option<String>,
    pub prefer_spark_over_lightning: bool,
    pub external_input_parsers: Unset,
    pub use_default_external_input_parsers: bool,
    pub real_time_sync_server_url: Option<String>,
    pub private_enabled_default: bool,
    pub optimization_config: OptimizationConfig,
    pub stable_balance_config: Unset,
    pub max_concurrent_claims: u32,
    pub support_lnurl_verify: bool,
}

/// What the wallet's keys are derived from.
#[derive(Debug, PartialEq, Eq)]
pub enum Seed {
    Mnemonic { mnemonic: String, passphrase: Option<String> },
}

/// Asks for a connection.
#[derive(Debug, PartialEq, Eq)]
pub struct ConnectRequest {
    pub config: Config,
    pub seed: Seed,
    pub storage_dir: String,
}

/// Asks for the state of the wallet.
#[derive(Debug, Clone, Copy, PartialEq, Eq)]
pub struct GetInfoRequest {
    pub ensure_synced: Option<bool>,
}

#[derive(Debug, PartialEq, Eq)]
pub enum ReceivePaymentMethod {
    Bolt11Invoice {
        description: String,
        amount_sats: Option<u64>,
        expiry_secs: Option<u32>,
        payment_hash: Option<String>,
    },
}

/// Asks for something to be paid by.
#[derive(Debug, PartialEq, Eq)]
pub struct ReceivePaymentRequest {
    pub payment_method: ReceivePaymentMethod,
}

#[derive(Debug)]
pub struct ReceivePaymentResponse {
    pub payment_request: String,
}

/// Asks what paying `payment_request` would take.
#[derive(Debug, PartialEq, Eq)]
pub struct PrepareSendPaymentRequest {
    pub payment_request: String,
    pub amount: Option<u128>,
    pub token_identifier: Option<String>,
    pub conversion_options: Unset,
    pub fee_policy: Unset,
}

/// The way in which a payment would be sent, with its fees.
#[derive(Debug)]
pub enum SendPaymentMethod {
    Bolt11Invoice { spark_transfer_fee_sats: Option<u64>, lightning_fee_sats: u64 },
    Other,
}

/// What paying would take.
#[derive(Debug)]
pub struct PrepareSendPaymentResponse {
    pub payment_method: SendPaymentMethod,
    pub amount: u128,
}

/// Asks for a prepared payment to be sent. `P` is the SDK's own reply to its preparation.
#[derive(Debug, PartialEq, Eq)]
pub struct SendPaymentRequest<P> {
    pub prepare_response: P,
    pub options: Unset,
    pub idempotency_key: Option<String>,
}

/// Whether a payment left the wallet or reached it.
#[derive(Debug, Clone, Copy, PartialEq, Eq, Structural)]
pub enum PaymentType {
    Send,
    Receive,
}

/// Asks for the payments of some types; of all, without a filter.
#[derive(Debug, PartialEq, Eq)]
pub struct ListPaymentsRequest {
    pub type_filter: Option<Vec<PaymentType>>,
}

#[derive(Debug, Clone, Copy, PartialEq, Eq, Structural)]
pub enum PaymentStatus {
    Completed,
    Pending,
    Failed,
}

/// What is known of a payment beyond its amount.
#[derive(Debug)]
pub enum PaymentDetails {
    Lightning {
        invoice: String,
        /// In hexadecimal.
        payment_hash: String,
    },
    Other,
}

/// A payment, as the SDK reports it. Both numbers are in sats.
#[derive(Debug)]
pub struct Payment {
    pub id: String,
    pub payment_type: PaymentType,
    pub status: PaymentStatus,
    pub amount: u128,
    pub fees: u128,
    pub details: Option<PaymentDetails>,
}

impl Payment {
    /// What the payment comes to, fees included.
    pub open spec fn total(self) -> int {
        self.amount + self.fees
    }

    /// The total is a number that the SDK itself could report.
    pub open spec fn total_fits(self) -> bool {
        self.total() <= u128::MAX
    }

    /// The payment went over Lightning, to the invoice `request`.
    pub open spec fn pays(self, request: Seq<char>) -> bool {
        self.details matches Some(PaymentDetails::Lightning { invoice, .. }) && invoice@ == request
    }

    /// Whether the amount and the fees can be added up.
    pub fn has_total(&self) -> (fits: bool)
        ensures
            fits == self.total_fits(),
    {
        self.amount.checked_add(self.fees).is_some()
    }

    /// What the payment comes to, in the 64 bits of an amount.
    pub fn total_sats(&self) -> (sats: u64)
        requires
            self.total_fits(),
        ensures
            sats == low_64_bits(self.total()),
    {
        truncate_to_u64(self.amount + self.fees)
    }

    /// Whether the payment went over Lightning, to the invoice `request`.
    pub fn is_for(&self, request: &String) -> (found: bool)
        ensures
            found == self.pays(request@),
    {
        match &self.details {
            Some(PaymentDetails::Lightning { invoice, .. }) => *invoice == *request,
            _ => false,
        }
    }
}

/// What the SDK tells its listeners.
#[derive(Debug)]
pub enum SdkEvent {
    PaymentSucceeded { payment: Payment },
    Other,
}

} // verus!
