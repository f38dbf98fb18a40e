use breez_backend::amount::{Amount, CurrencyUnit};
use breez_backend::backend::BreezBackend;
use breez_backend::outgoing::{AwaitMeltStore, AwaitPreparation, AwaitQuote, AwaitSent};
use breez_backend::payment::{
    Error, MakePaymentResponse, MeltQuoteState, OutgoingPaymentOptions, PaymentIdentifier,
    PaymentQuoteResponse,
};
use breez_backend::quote::Quote;
use breez_backend::sdk::{
    Payment, PaymentStatus, PaymentType, PrepareSendPaymentRequest, PrepareSendPaymentResponse,
    SendPaymentMethod, SendPaymentRequest, Unset,
};
use breez_backend::startup::AwaitDatabase;

const INVOICE: &str = "lnbc25m1pvjluezpp5qqqsyqcyq5rqwzqfqqqsyqcyq5rqwzqfqqqsyqcyq5rqwzqfqypqdq5vdhkven9v5sxyetpdeessp5zyg3zyg3zyg3zyg3zyg3zyg3zyg3zyg3zyg3zyg3zyg3zyg3zygs9q5sqqqqqqqqqqqqqqqqsgq2a25dxl5hrntdtn6zvydt7d66hyzsyhqs4wdynavys42xgl6sgx9c4g7me86a27t07mdtfry458rtjr0v92cnmswpsjscgt2vcse3sgpz3uapa";

const HASH: [u8; 32] = [
    0, 1, 2, 3, 4, 5, 6, 7, 8, 9, 0, 1, 2, 3, 4, 5, 6, 7, 8, 9, 0, 1, 2, 3, 4, 5, 6, 7, 8, 9, 1, 2,
];

type Fault = Error<String>;

fn idle() -> BreezBackend {
    let state = AwaitDatabase { db_path: "db".to_string() };
    state.resume::<(), String>(Ok(())).unwrap().1
}

fn pay(bolt11: &str) -> OutgoingPaymentOptions {
    OutgoingPaymentOptions::Bolt11 { bolt11: bolt11.to_string() }
}

fn preparation(bolt11: &str) -> PrepareSendPaymentRequest {
    PrepareSendPaymentRequest {
        payment_request: bolt11.to_string(),
        amount: None,
        token_identifier: None,
        conversion_options: Unset,
        fee_policy: Unset,
    }
}

fn cost(transfer: Option<u64>, lightning: u64, amount: u128) -> PrepareSendPaymentResponse {
    PrepareSendPaymentResponse {
        payment_method: SendPaymentMethod::Bolt11Invoice {
            spark_transfer_fee_sats: transfer,
            lightning_fee_sats: lightning,
        },
        amount,
    }
}

fn quoting(bolt11: &str) -> AwaitQuote {
    AwaitQuote { bolt11: bolt11.to_string(), unit: CurrencyUnit::Msat }
}

fn payment(amount: u128, fees: u128) -> Payment {
    Payment {
        id: "id".to_string(),
        payment_type: PaymentType::Send,
        status: PaymentStatus::Completed,
        amount,
        fees,
        details: None,
    }
}

#[test]
fn quote_asks_for_the_cost() {
    let unit = CurrencyUnit::Custom("bean".to_string());
    let result: Result<_, Fault> = idle().get_payment_quote(&unit, pay(INVOICE));
    let next = AwaitQuote { bolt11: INVOICE.to_string(), unit };
    assert_eq!(result, Ok((preparation(INVOICE), next)));
}

#[test]
fn only_bolt11_is_quoted() {
    let unit = CurrencyUnit::Sat;
    let result: Result<_, Fault> = idle().get_payment_quote(&unit, OutgoingPaymentOptions::Bolt12);
    assert_eq!(result, Err(Error::UnsupportedPaymentOption));
    let result: Result<_, Fault> = idle().get_payment_quote(&unit, OutgoingPaymentOptions::Custom);
    assert_eq!(result, Err(Error::UnsupportedPaymentOption));
}

#[test]
fn quote_is_stored_under_the_payment_hash() {
    let result: Result<_, Fault> = quoting(INVOICE).resume(Ok(cost(Some(3), 4, 2_500_000)));
    assert_eq!(
        result,
        Ok(AwaitMeltStore {
            quote: Quote { payment_hash: HASH, payment_request: INVOICE.to_string() },
            amount: 2_500_000,
            fee: 7,
            unit: CurrencyUnit::Msat,
        })
    );
}

#[test]
fn fee_without_transfer_fee() {
    let result: Result<_, Fault> = quoting("x").resume_read(cost(None, 4, 1), Ok(HASH));
    assert_eq!(result.unwrap().fee, 4);
}

#[test]
fn other_ways_of_sending_have_no_fee() {
    let response = PrepareSendPaymentResponse { payment_method: SendPaymentMethod::Other, amount: 1 };
    assert!(response.has_fee());
    let result: Result<_, Fault> = quoting("x").resume_read(response, Ok(HASH));
    assert_eq!(result.unwrap().fee, 0);
}

#[test]
fn quoted_amount_keeps_its_low_bits() {
    let response = cost(None, 0, (1u128 << 64) + 9);
    let result: Result<_, Fault> = quoting("x").resume_read(response, Ok(HASH));
    assert_eq!(result.unwrap().amount, 9);
}

#[test]
fn fees_that_cannot_be_added_up() {
    assert!(cost(Some(u64::MAX), 0, 1).has_fee());
    assert!(cost(None, u64::MAX, 1).has_fee());
    assert!(!cost(Some(u64::MAX), 1, 1).has_fee());
}

#[test]
fn unreadable_invoice_is_not_quoted() {
    let result: Result<_, Fault> = quoting("no invoice").resume(Ok(cost(None, 0, 1)));
    let reason = "no invoice".parse::<cdk_common::Bolt11Invoice>().unwrap_err();
    assert_eq!(result, Err(Error::Parse(reason)));
}

#[test]
fn failed_cost_is_told() {
    let result: Result<_, Fault> = quoting(INVOICE).resume(Err("offline".to_string()));
    assert_eq!(result, Err(Error::Lightning("offline".to_string())));
}

fn stored_quote() -> AwaitMeltStore {
    AwaitMeltStore {
        quote: Quote { payment_hash: HASH, payment_request: INVOICE.to_string() },
        amount: 250,
        fee: 7,
        unit: CurrencyUnit::Eur,
    }
}

#[test]
fn stored_quote_is_given() {
    let result: Result<_, Fault> = stored_quote().resume(Ok(()));
    assert_eq!(
        result,
        Ok(PaymentQuoteResponse {
            request_lookup_id: Some(PaymentIdentifier::PaymentHash(HASH)),
            amount: Amount::new(250, CurrencyUnit::Eur),
            fee: Amount::new(7, CurrencyUnit::Eur),
            state: MeltQuoteState::Unpaid,
        })
    );
}

#[test]
fn unstored_quote_is_not_given() {
    let result: Result<_, Fault> = stored_quote().resume(Err("disk full".to_string()));
    assert_eq!(result, Err(Error::Custom("disk full".to_string())));
}

#[test]
fn payment_is_prepared_first() {
    let result: Result<_, Fault> = idle().make_payment(&CurrencyUnit::Sat, pay(INVOICE));
    let next = AwaitPreparation { bolt11: INVOICE.to_string() };
    assert_eq!(result, Ok((preparation(INVOICE), next)));
}

#[test]
fn only_bolt11_is_paid() {
    let unit = CurrencyUnit::Sat;
    let result: Result<_, Fault> = idle().make_payment(&unit, OutgoingPaymentOptions::Bolt12);
    assert_eq!(result, Err(Error::UnsupportedPaymentOption));
    let result: Result<_, Fault> = idle().make_payment(&unit, OutgoingPaymentOptions::Custom);
    assert_eq!(result, Err(Error::UnsupportedPaymentOption));
}

#[test]
fn what_was_prepared_is_sent() {
    let state = AwaitPreparation { bolt11: INVOICE.to_string() };
    let result: Result<_, Fault> = state.resume(Ok(17u32));
    let request =
        SendPaymentRequest { prepare_response: 17u32, options: Unset, idempotency_key: None };
    assert_eq!(result, Ok((request, AwaitSent { bolt11: INVOICE.to_string() })));
}

#[test]
fn failed_preparation_sends_nothing() {
    let state = AwaitPreparation { bolt11: INVOICE.to_string() };
    let result: Result<(SendPaymentRequest<u32>, AwaitSent), Fault> =
        state.resume(Err("no funds".to_string()));
    assert_eq!(result, Err(Error::Lightning("no funds".to_string())));
}

#[test]
fn sent_payment_is_reported_in_sats() {
    let state = AwaitSent { bolt11: INVOICE.to_string() };
    let result: Result<_, Fault> = state.resume(Ok(payment(2_500_000, 12)));
    assert_eq!(
        result,
        Ok(MakePaymentResponse {
            payment_lookup_id: PaymentIdentifier::PaymentHash(HASH),
            payment_proof: None,
            status: MeltQuoteState::Paid,
            total_spent: Amount::new(2_500_012, CurrencyUnit::Sat),
        })
    );
}

#[test]
fn failed_payment_is_told() {
    let state = AwaitSent { bolt11: INVOICE.to_string() };
    let result: Result<_, Fault> = state.resume(Err("no route".to_string()));
    assert_eq!(result, Err(Error::Lightning("no route".to_string())));
}

#[test]
fn unreadable_invoice_is_told_after_sending() {
    let state = AwaitSent { bolt11: "no invoice".to_string() };
    let result: Result<_, Fault> = state.resume(Ok(payment(1, 0)));
    let reason = "no invoice".parse::<cdk_common::Bolt11Invoice>().unwrap_err();
    assert_eq!(result, Err(Error::Parse(reason)));
}

#[test]
fn total_spent_keeps_its_low_bits() {
    let state = AwaitSent { bolt11: "x".to_string() };
    let result: Result<_, Fault> = state.resume_read(payment(u64::MAX as u128, 6), Ok(HASH));
    assert_eq!(result.unwrap().total_spent, Amount::new(5, CurrencyUnit::Sat));
}

#[test]
fn totals_that_cannot_be_added_up() {
    assert!(payment(u128::MAX, 0).has_total());
    assert!(!payment(u128::MAX, 1).has_total());
}

#[test]
fn quote_and_payment_share_their_identifier() {
    let unit = CurrencyUnit::Sat;
    let quoted: Result<_, Fault> = idle().get_payment_quote(&unit, pay(INVOICE));
    let stored: Result<_, Fault> = quoted.unwrap().1.resume(Ok(cost(Some(1), 1, 100)));
    let quote: Result<_, Fault> = stored.unwrap().resume(Ok(()));
    let prepared: Result<_, Fault> = idle().make_payment(&unit, pay(INVOICE));
    let sent: Result<_, Fault> = prepared.unwrap().1.resume(Ok(()));
    let paid: Result<_, Fault> = sent.unwrap().1.resume(Ok(payment(100, 2)));
    assert_eq!(quote.unwrap().request_lookup_id, Some(paid.unwrap().payment_lookup_id));
}
