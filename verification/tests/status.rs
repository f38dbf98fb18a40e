use breez_backend::amount::{Amount, CurrencyUnit};
use breez_backend::backend::BreezBackend;
use breez_backend::events::on_event;
use breez_backend::hash::payment_hash_from_hex;
use breez_backend::incoming::AwaitMintStore;
use breez_backend::outgoing::{AwaitMeltStore, AwaitSent};
use breez_backend::payment::{
    Error, Event, MakePaymentResponse, MeltQuoteState, PaymentIdentifier, WaitPaymentResponse,
};
use breez_backend::quote::Quote;
use breez_backend::sdk::{
    ListPaymentsRequest, Payment, PaymentDetails, PaymentStatus, PaymentType, SdkEvent,
};
use breez_backend::startup::AwaitDatabase;
use breez_backend::status::{
    AwaitMeltLookup, AwaitMintLookup, AwaitReceived, AwaitSentList, CheckStep,
};
use std::collections::HashMap;

const HASH: [u8; 32] = [0xab; 32];
const HASH_TEXT: &str = "abABabABabABabABabABabABabABabABabABabABabABabABabABabABabABabAB";

type Fault = Error<String>;

fn idle() -> BreezBackend {
    let state = AwaitDatabase { db_path: "db".to_string() };
    state.resume::<(), String>(Ok(())).unwrap().1
}

fn lightning(id: &str, invoice: &str, status: PaymentStatus, amount: u128, fees: u128) -> Payment {
    Payment {
        id: id.to_string(),
        payment_type: PaymentType::Receive,
        status,
        amount,
        fees,
        details: Some(PaymentDetails::Lightning {
            invoice: invoice.to_string(),
            payment_hash: HASH_TEXT.to_string(),
        }),
    }
}

fn sent(id: &str, invoice: &str, status: PaymentStatus, amount: u128, fees: u128) -> Payment {
    Payment { payment_type: PaymentType::Send, ..lightning(id, invoice, status, amount, fees) }
}

fn without_details(details: Option<PaymentDetails>) -> Payment {
    Payment {
        id: "other".to_string(),
        payment_type: PaymentType::Receive,
        status: PaymentStatus::Completed,
        amount: 1,
        fees: 1,
        details,
    }
}

fn response(id: &str, sats: u64) -> WaitPaymentResponse {
    WaitPaymentResponse {
        payment_identifier: PaymentIdentifier::PaymentHash(HASH),
        payment_amount: Amount::new(sats, CurrencyUnit::Sat),
        payment_id: id.to_string(),
    }
}

fn received() -> AwaitReceived {
    AwaitReceived { payment_hash: HASH, payment_request: "invoice".to_string() }
}

fn sent_list() -> AwaitSentList {
    AwaitSentList { payment_hash: HASH, payment_request: "invoice".to_string() }
}

fn outgoing(status: MeltQuoteState, sats: u64) -> MakePaymentResponse {
    MakePaymentResponse {
        payment_lookup_id: PaymentIdentifier::PaymentHash(HASH),
        payment_proof: None,
        status,
        total_spent: Amount::new(sats, CurrencyUnit::Sat),
    }
}

fn other_identifiers() -> Vec<PaymentIdentifier> {
    vec![
        PaymentIdentifier::Label("label".to_string()),
        PaymentIdentifier::OfferId("offer".to_string()),
        PaymentIdentifier::Bolt12PaymentHash(HASH),
        PaymentIdentifier::PaymentId(HASH),
        PaymentIdentifier::CustomId("custom".to_string()),
    ]
}

#[test]
fn incoming_check_looks_the_hash_up() {
    let step = idle().check_incoming_payment_status(&PaymentIdentifier::PaymentHash(HASH));
    assert_eq!(step, CheckStep::Continue(AwaitMintLookup { payment_hash: HASH }));
}

#[test]
fn incoming_check_knows_no_other_identifier() {
    for identifier in other_identifiers() {
        let step = idle().check_incoming_payment_status(&identifier);
        assert_eq!(step, CheckStep::Done(vec![]));
    }
}

#[test]
fn found_mint_quote_lists_received_payments() {
    let state = AwaitMintLookup { payment_hash: HASH };
    let result: Result<_, Fault> = state.resume(Ok(Some("invoice".to_string())));
    let request = ListPaymentsRequest { type_filter: Some(vec![PaymentType::Receive]) };
    assert_eq!(result, Ok(CheckStep::Continue((request, received()))));
}

#[test]
fn missing_mint_quote_finds_nothing() {
    let state = AwaitMintLookup { payment_hash: HASH };
    let result: Result<_, Fault> = state.resume(Ok(None));
    assert_eq!(result, Ok(CheckStep::Done(vec![])));
}

#[test]
fn failed_mint_look_up_is_told() {
    let state = AwaitMintLookup { payment_hash: HASH };
    let result: Result<_, Fault> = state.resume(Err("corrupt".to_string()));
    assert_eq!(result, Err(Error::Custom("corrupt".to_string())));
}

#[test]
fn first_payment_to_the_invoice_is_reported() {
    let payments = vec![
        without_details(None),
        without_details(Some(PaymentDetails::Other)),
        lightning("a", "another", PaymentStatus::Completed, 1, 0),
        lightning("b", "invoice", PaymentStatus::Completed, 40, 2),
        lightning("c", "invoice", PaymentStatus::Completed, 9, 9),
    ];
    let result: Result<_, Fault> = received().resume(Ok(payments));
    assert_eq!(result, Ok(vec![response("b", 42)]));
}

#[test]
fn uncompleted_payment_is_not_reported() {
    for status in [PaymentStatus::Pending, PaymentStatus::Failed] {
        let payments = vec![
            lightning("a", "invoice", status, 40, 2),
            lightning("b", "invoice", PaymentStatus::Completed, 40, 2),
        ];
        let result: Result<_, Fault> = received().resume(Ok(payments));
        assert_eq!(result, Ok(vec![]));
    }
}

#[test]
fn unpaid_invoice_is_not_reported() {
    let payments = vec![lightning("a", "another", PaymentStatus::Completed, 40, 2)];
    let result: Result<_, Fault> = received().resume(Ok(payments));
    assert_eq!(result, Ok(vec![]));
    let result: Result<_, Fault> = received().resume(Ok(vec![]));
    assert_eq!(result, Ok(vec![]));
}

#[test]
fn failed_listing_is_told() {
    let result: Result<_, Fault> = received().resume(Err("offline".to_string()));
    assert_eq!(result, Err(Error::Lightning("offline".to_string())));
    let result: Result<_, Fault> = sent_list().resume(Err("offline".to_string()));
    assert_eq!(result, Err(Error::Lightning("offline".to_string())));
}

#[test]
fn totals_of_the_listed_payments() {
    let huge = |status| vec![lightning("a", "invoice", status, u128::MAX, 1)];
    assert!(!received().can_take(&huge(PaymentStatus::Completed)));
    assert!(received().can_take(&huge(PaymentStatus::Pending)));
    assert!(!sent_list().can_take(&huge(PaymentStatus::Pending)));
    let elsewhere = vec![lightning("a", "another", PaymentStatus::Completed, u128::MAX, 1)];
    assert!(received().can_take(&elsewhere));
    assert!(sent_list().can_take(&elsewhere));
}

#[test]
fn outgoing_check_looks_the_hash_up() {
    let result: Result<_, Fault> =
        idle().check_outgoing_payment(&PaymentIdentifier::PaymentHash(HASH));
    assert_eq!(result, Ok(AwaitMeltLookup { payment_hash: HASH }));
}

#[test]
fn outgoing_check_refuses_other_identifiers() {
    for identifier in other_identifiers() {
        let result: Result<_, Fault> = idle().check_outgoing_payment(&identifier);
        assert_eq!(result, Err(Error::Custom("Unsupported payment identifier type".to_string())));
    }
}

#[test]
fn found_melt_quote_lists_sent_payments() {
    let state = AwaitMeltLookup { payment_hash: HASH };
    let result: Result<_, Fault> = state.resume(Ok(Some("invoice".to_string())));
    let request = ListPaymentsRequest { type_filter: Some(vec![PaymentType::Send]) };
    assert_eq!(result, Ok((request, sent_list())));
}

#[test]
fn missing_melt_quote_is_an_error() {
    let state = AwaitMeltLookup { payment_hash: HASH };
    let result: Result<_, Fault> = state.resume(Ok(None));
    assert_eq!(result, Err(Error::Custom("Payment not found in database".to_string())));
}

#[test]
fn failed_melt_look_up_is_told() {
    let state = AwaitMeltLookup { payment_hash: HASH };
    let result: Result<_, Fault> = state.resume(Err("corrupt".to_string()));
    assert_eq!(result, Err(Error::Custom("corrupt".to_string())));
}

#[test]
fn outgoing_status_follows_the_first_payment() {
    let cases = [
        (PaymentStatus::Completed, MeltQuoteState::Paid),
        (PaymentStatus::Failed, MeltQuoteState::Unpaid),
        (PaymentStatus::Pending, MeltQuoteState::Pending),
    ];
    for (status, state) in cases {
        let payments = vec![
            sent("a", "another", PaymentStatus::Completed, 1, 1),
            sent("b", "invoice", status, 40, 2),
            sent("c", "invoice", PaymentStatus::Completed, 1, 1),
        ];
        let result: Result<_, Fault> = sent_list().resume(Ok(payments));
        assert_eq!(result, Ok(outgoing(state, 42)));
    }
}

#[test]
fn unsent_payment_is_unpaid() {
    let payments = vec![sent("a", "another", PaymentStatus::Completed, 1, 1)];
    let result: Result<_, Fault> = sent_list().resume(Ok(payments));
    assert_eq!(result, Ok(outgoing(MeltQuoteState::Unpaid, 0)));
}

#[test]
fn received_payment_is_told() {
    let payment = lightning("p", "invoice", PaymentStatus::Completed, 40, 2);
    let event = SdkEvent::PaymentSucceeded { payment };
    assert!(event.has_total());
    assert_eq!(on_event(event), Some(Event::PaymentReceived(response("p", 42))));
}

#[test]
fn other_events_are_not_told() {
    assert_eq!(on_event(SdkEvent::Other), None);
    let payment = without_details(None);
    assert_eq!(on_event(SdkEvent::PaymentSucceeded { payment }), None);
    let payment = without_details(Some(PaymentDetails::Other));
    assert_eq!(on_event(SdkEvent::PaymentSucceeded { payment }), None);
}

fn succeeded(payment_hash: &str, amount: u128, fees: u128) -> SdkEvent {
    SdkEvent::PaymentSucceeded {
        payment: Payment {
            id: "p".to_string(),
            payment_type: PaymentType::Receive,
            status: PaymentStatus::Completed,
            amount,
            fees,
            details: Some(PaymentDetails::Lightning {
                invoice: "invoice".to_string(),
                payment_hash: payment_hash.to_string(),
            }),
        },
    }
}

#[test]
fn unreadable_payment_hash_is_not_told() {
    assert_eq!(on_event(succeeded("", 1, 1)), None);
    assert_eq!(on_event(succeeded("abc", 1, 1)), None);
    assert_eq!(on_event(succeeded("abab", 1, 1)), None);
    assert_eq!(on_event(succeeded(&HASH_TEXT.replace('b', "g"), 1, 1)), None);
    assert_eq!(on_event(succeeded(&format!("{}00", HASH_TEXT), 1, 1)), None);
}

#[test]
fn outgoing_payment_is_not_told() {
    for (amount, fees) in [(40, 2), (u128::MAX, 1)] {
        let payment = sent("p", "invoice", PaymentStatus::Completed, amount, fees);
        let event = SdkEvent::PaymentSucceeded { payment };
        assert!(event.has_total());
        assert_eq!(on_event(event), None);
    }
}

#[test]
fn totals_of_events() {
    assert!(!succeeded(HASH_TEXT, u128::MAX, 1).has_total());
    assert!(succeeded("abc", u128::MAX, 1).has_total());
    assert!(SdkEvent::Other.has_total());
}

#[test]
fn payment_hash_reads_both_cases() {
    assert_eq!(payment_hash_from_hex(HASH_TEXT), Some(HASH));
    let text = "00010203040506070809000102030405060708090001020304050607080F10ff";
    let hash = payment_hash_from_hex(text).unwrap();
    assert_eq!(hash[28..], [0x08, 0x0f, 0x10, 0xff]);
    assert_eq!(payment_hash_from_hex("\u{e9}\u{e9}"), None);
}

#[test]
fn created_invoice_can_be_checked() {
    let mut table: HashMap<[u8; 32], String> = HashMap::new();
    let stored = AwaitMintStore {
        quote: Quote { payment_hash: HASH, payment_request: "invoice".to_string() },
    };
    table.insert(stored.quote.payment_hash, stored.quote.payment_request.clone());
    let created: Result<_, Fault> = stored.resume(Ok(()));
    let created = created.unwrap();
    let CheckStep::Continue(lookup) =
        idle().check_incoming_payment_status(&created.request_lookup_id)
    else {
        panic!("the check ended early");
    };
    let found = table.get(&lookup.payment_hash).cloned();
    let listing: Result<_, Fault> = lookup.resume(Ok(found));
    let CheckStep::Continue((_, state)) = listing.unwrap() else {
        panic!("the check ended early");
    };
    let payments = vec![lightning("p", "invoice", PaymentStatus::Completed, 40, 2)];
    let result: Result<_, Fault> = state.resume(Ok(payments));
    assert_eq!(result, Ok(vec![response("p", 42)]));
}

#[test]
fn quoted_payment_can_be_checked() {
    let mut table: HashMap<[u8; 32], String> = HashMap::new();
    let stored = AwaitMeltStore {
        quote: Quote { payment_hash: HASH, payment_request: "invoice".to_string() },
        amount: 40,
        fee: 2,
        unit: CurrencyUnit::Sat,
    };
    table.insert(stored.quote.payment_hash, stored.quote.payment_request.clone());
    let quoted: Result<_, Fault> = stored.resume(Ok(()));
    let identifier = quoted.unwrap().request_lookup_id.unwrap();
    let lookup: Result<_, Fault> = idle().check_outgoing_payment(&identifier);
    let lookup = lookup.unwrap();
    let found = table.get(&lookup.payment_hash).cloned();
    let listing: Result<_, Fault> = lookup.resume(Ok(found));
    let result: Result<_, Fault> = listing.unwrap().1.resume(Ok(vec![]));
    assert_eq!(result, Ok(outgoing(MeltQuoteState::Unpaid, 0)));
}

#[test]
fn check_confirms_payment() {
    let payment = || sent("p", "invoice", PaymentStatus::Completed, 40, 2);
    let state = AwaitSent { bolt11: "invoice".to_string() };
    let paid: Result<_, Fault> = state.resume_read(payment(), Ok(HASH));
    let checked: Result<_, Fault> = sent_list().resume(Ok(vec![payment()]));
    assert_eq!(checked, paid);
}

#[test]
fn event_agrees_with_check() {
    let payment = || lightning("p", "invoice", PaymentStatus::Completed, 40, 2);
    let told = on_event(SdkEvent::PaymentSucceeded { payment: payment() });
    let checked: Result<_, Fault> = received().resume(Ok(vec![payment()]));
    let reported = checked.unwrap().pop().unwrap();
    assert_eq!(told, Some(Event::PaymentReceived(reported)));
}
