use breez_backend::amount::CurrencyUnit;
use breez_backend::backend::BreezBackend;
use breez_backend::incoming::{AwaitInvoice, AwaitMintStore};
use breez_backend::payment::{
    Bolt11IncomingPaymentOptions, CreateIncomingPaymentResponse, Error, IncomingPaymentOptions,
    PaymentIdentifier,
};
use breez_backend::quote::Quote;
use breez_backend::sdk::{ReceivePaymentMethod, ReceivePaymentRequest, ReceivePaymentResponse};
use breez_backend::startup::AwaitDatabase;
use cdk_common::lightning_invoice::ParseOrSemanticError;

const INVOICE: &str = "lnbc1pvjluezsp5zyg3zyg3zyg3zyg3zyg3zyg3zyg3zyg3zyg3zyg3zyg3zyg3zygspp5qqqsyqcyq5rqwzqfqqqsyqcyq5rqwzqfqqqsyqcyq5rqwzqfqypqdpl2pkx2ctnv5sxxmmwwd5kgetjypeh2ursdae8g6twvus8g6rfwvs8qun0dfjkxaq9qrsgq357wnc5r2ueh7ck6q93dj32dlqnls087fxdwk8qakdyafkq3yap9us6v52vjjsrvywa6rt52cm9r9zqt8r2t7mlcwspyetp5h2tztugp9lfyql";

const HASH: [u8; 32] = [
    0, 1, 2, 3, 4, 5, 6, 7, 8, 9, 0, 1, 2, 3, 4, 5, 6, 7, 8, 9, 0, 1, 2, 3, 4, 5, 6, 7, 8, 9, 1, 2,
];

type Fault = Error<String>;

fn idle() -> BreezBackend {
    let state = AwaitDatabase { db_path: "db".to_string() };
    state.resume::<(), String>(Ok(())).unwrap().1
}

fn options(amount: u64, unix_expiry: Option<u64>) -> IncomingPaymentOptions {
    IncomingPaymentOptions::Bolt11(Bolt11IncomingPaymentOptions {
        description: None,
        amount,
        unix_expiry,
    })
}

fn requested(
    description: &str,
    amount_sats: Option<u64>,
    expiry_secs: Option<u32>,
) -> ReceivePaymentRequest {
    ReceivePaymentRequest {
        payment_method: ReceivePaymentMethod::Bolt11Invoice {
            description: description.to_string(),
            amount_sats,
            expiry_secs,
            payment_hash: None,
        },
    }
}

fn at(options: IncomingPaymentOptions, now: u64) -> Result<ReceivePaymentRequest, Fault> {
    idle().create_incoming_payment_request_at(options, now).map(|(request, _)| request)
}

#[test]
fn amount_and_default_description() {
    assert_eq!(at(options(2500, None), 0), Ok(requested("Payment", Some(2500), None)));
}

#[test]
fn given_description_is_kept() {
    let options = IncomingPaymentOptions::Bolt11(Bolt11IncomingPaymentOptions {
        description: Some("Two coffees".to_string()),
        amount: 1,
        unix_expiry: None,
    });
    assert_eq!(at(options, 0), Ok(requested("Two coffees", Some(1), None)));
}

#[test]
fn no_amount_asks_for_an_open_invoice() {
    assert_eq!(at(options(0, None), 0), Ok(requested("Payment", None, None)));
}

#[test]
fn expiry_is_counted_from_now() {
    let now: u64 = 1_700_000_000;
    assert_eq!(
        at(options(5, Some(now + 3600)), now),
        Ok(requested("Payment", Some(5), Some(3600)))
    );
    assert_eq!(at(options(5, Some(now)), now), Ok(requested("Payment", Some(5), Some(0))));
}

#[test]
fn distant_expiry_keeps_its_low_bits() {
    let far: u64 = 100 + (1u64 << 32) + 7;
    assert_eq!(at(options(5, Some(far)), 100), Ok(requested("Payment", Some(5), Some(7))));
}

#[test]
fn past_expiry_is_refused() {
    assert_eq!(at(options(5, Some(99)), 100), Err(Error::AmountMismatch));
}

#[test]
fn only_bolt11_invoices_are_made() {
    assert_eq!(at(IncomingPaymentOptions::Bolt12, 0), Err(Error::UnsupportedPaymentOption));
    assert_eq!(at(IncomingPaymentOptions::Custom, 0), Err(Error::UnsupportedPaymentOption));
}

#[test]
fn the_clock_decides_on_expiry() {
    let backend = idle();
    let unit = CurrencyUnit::Sat;
    let past: Result<_, Fault> = backend.create_incoming_payment_request(&unit, options(5, Some(1)));
    assert_eq!(past, Err(Error::AmountMismatch));
    let now = cdk_common::util::unix_time();
    let result: Result<_, Fault> =
        backend.create_incoming_payment_request(&unit, options(5, Some(now + 1000)));
    let (request, _) = result.unwrap();
    let ReceivePaymentMethod::Bolt11Invoice { expiry_secs, .. } = request.payment_method;
    let seconds = expiry_secs.unwrap();
    assert!(seconds <= 1000 && seconds > 900);
    let never: Result<_, Fault> = backend.create_incoming_payment_request(&unit, options(5, None));
    assert_eq!(never.unwrap().0, requested("Payment", Some(5), None));
}

#[test]
fn invoice_is_stored_under_its_payment_hash() {
    let reply = Ok(ReceivePaymentResponse { payment_request: INVOICE.to_string() });
    let result: Result<_, Fault> = AwaitInvoice.resume(reply);
    let quote = Quote { payment_hash: HASH, payment_request: INVOICE.to_string() };
    assert_eq!(result, Ok(AwaitMintStore { quote }));
}

#[test]
fn unreadable_invoice_is_refused() {
    let reply = Ok(ReceivePaymentResponse { payment_request: "lnbc1nonsense".to_string() });
    let result: Result<_, Fault> = AwaitInvoice.resume(reply);
    let reason = "lnbc1nonsense".parse::<cdk_common::Bolt11Invoice>().unwrap_err();
    assert_eq!(result, Err(Error::Parse(reason)));
}

#[test]
fn read_hash_decides_on_the_quote() {
    let response = ReceivePaymentResponse { payment_request: "request".to_string() };
    let result: Result<_, Fault> = AwaitInvoice.resume_read(response, Ok([9; 32]));
    let quote = Quote { payment_hash: [9; 32], payment_request: "request".to_string() };
    assert_eq!(result, Ok(AwaitMintStore { quote }));
    let response = ReceivePaymentResponse { payment_request: "request".to_string() };
    let reason = ParseOrSemanticError::SemanticError(
        cdk_common::lightning_invoice::Bolt11SemanticError::NoPaymentHash,
    );
    let result: Result<_, Fault> = AwaitInvoice.resume_read(response, Err(reason.clone()));
    assert_eq!(result, Err(Error::Parse(reason)));
}

#[test]
fn failed_receive_is_told() {
    let result: Result<_, Fault> = AwaitInvoice.resume(Err("offline".to_string()));
    assert_eq!(result, Err(Error::Lightning("offline".to_string())));
}

#[test]
fn stored_invoice_is_handed_out() {
    let quote = Quote { payment_hash: HASH, payment_request: INVOICE.to_string() };
    let result: Result<_, Fault> = AwaitMintStore { quote }.resume(Ok(()));
    assert_eq!(
        result,
        Ok(CreateIncomingPaymentResponse {
            request_lookup_id: PaymentIdentifier::PaymentHash(HASH),
            request: INVOICE.to_string(),
            expiry: None,
            extra_json: None,
        })
    );
}

#[test]
fn unstored_invoice_is_not_handed_out() {
    let quote = Quote { payment_hash: HASH, payment_request: INVOICE.to_string() };
    let result: Result<_, Fault> = AwaitMintStore { quote }.resume(Err("disk full".to_string()));
    assert_eq!(result, Err(Error::Custom("disk full".to_string())));
}
