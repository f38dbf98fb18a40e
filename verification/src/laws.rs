//! What holds of the backend as a whole.

use crate::amount::{low_64_bits, Amount, CurrencyUnit};
use crate::backend::BackendView;
use crate::events::event_reported;
use crate::incoming::{invoice_received, mint_quote_stored, AwaitMintStore};
use crate::invoice::invoice_payment_hash;
use crate::outgoing::{
    cost_received, melt_quote_stored, payment_sent, AwaitMeltStore, AwaitQuote, AwaitSent,
};
use crate::payment::{
    CreateIncomingPaymentResponse, Error, Event, MakePaymentResponse, MeltQuoteState,
    PaymentIdentifier, PaymentQuoteResponse, WaitPaymentResponse,
};
use crate::quote::finds;
use crate::sdk::{
    ListPaymentsRequest, Payment, PaymentStatus, PaymentType, PrepareSendPaymentResponse,
    ReceivePaymentResponse, SdkEvent,
};
use crate::shutdown::{listener_passed, DisconnectStep};
use crate::status::{
    first_payment, incoming_check_started, melt_quote_found, mint_quote_found,
    outgoing_check_started, quote_state, received_reported, sent_reported, AwaitMeltLookup,
    AwaitMintLookup, AwaitReceived, AwaitSentList, CheckStep,
};
use cdk_common::lightning_invoice::ParseOrSemanticError;
use vstd::prelude::*;

verus! {

/// An invoice that was made can be checked by the identifier that came with it: the check finds
/// the quote that was stored, goes on to the payments that reached the wallet, and reports the
/// first one to the invoice, if it is completed, under that identifier. Only the SDK or the
/// database can make it fail.
pub proof fn law_created_invoice_can_be_checked<E>(
    table: Map<Seq<u8>, Seq<char>>,
    stored: AwaitMintStore,
    created: CreateIncomingPaymentResponse,
    step: CheckStep<AwaitMintLookup>,
    found: Option<String>,
    listing: Result<CheckStep<(ListPaymentsRequest, AwaitReceived)>, Error<E>>,
    payments: Vec<Payment>,
    result: Result<Vec<WaitPaymentResponse>, Error<E>>,
)
    requires
        mint_quote_stored(stored.quote, Ok(()), Ok::<_, Error<E>>(created)),
        incoming_check_started(created.request_lookup_id, step),
        step matches CheckStep::Continue(lookup) ==> {
            &&& finds(stored.quote.inserted_into(table), lookup.payment_hash@, found)
            &&& mint_quote_found(lookup, Ok(found), listing)
        },
        listing matches Ok(CheckStep::Continue((_, state))) ==> received_reported(
            state,
            Ok(payments),
            result,
        ),
    ensures
        step is Continue,
        listing matches Ok(CheckStep::Continue((request, _))) && request.asks_for_all(
            PaymentType::Receive,
        ),
        match first_payment(payments@, created.request@) {
            Some(payment) if payment.status == PaymentStatus::Completed => result matches Ok(
                reported,
            ) && reported@ == seq![payment.reported_as(created.request_lookup_id)],
            _ => result matches Ok(reported) && reported@.len() == 0,
        },
{
}

/// A quote that was given can be checked by its identifier: the check finds the quote that was
/// stored, goes on to the payments that left the wallet, and tells the state of the first one to
/// the quoted invoice, with what was spent on it in sats. A quote whose invoice no payment went to
/// is unpaid, with nothing spent.
pub proof fn law_quoted_payment_can_be_checked<E>(
    table: Map<Seq<u8>, Seq<char>>,
    stored: AwaitMeltStore,
    quoted: PaymentQuoteResponse,
    step: Result<AwaitMeltLookup, Error<E>>,
    found: Option<String>,
    listing: Result<(ListPaymentsRequest, AwaitSentList), Error<E>>,
    payments: Vec<Payment>,
    result: Result<MakePaymentResponse, Error<E>>,
)
    requires
        melt_quote_stored(stored, Ok(()), Ok::<_, Error<E>>(quoted)),
        quoted.request_lookup_id matches Some(identifier) ==> outgoing_check_started(
            identifier,
            step,
        ),
        step matches Ok(lookup) ==> {
            &&& finds(stored.quote.inserted_into(table), lookup.payment_hash@, found)
            &&& melt_quote_found(lookup, Ok(found), listing)
        },
        listing matches Ok((_, state)) ==> sent_reported(state, Ok(payments), result),
    ensures
        quoted.request_lookup_id is Some,
        step is Ok,
        listing matches Ok((request, _)) && request.asks_for_all(PaymentType::Send),
        result == Ok::<_, Error<E>>(
            MakePaymentResponse {
                payment_lookup_id: quoted.request_lookup_id->Some_0,
                payment_proof: None,
                status: match first_payment(payments@, stored.quote.payment_request@) {
                    Some(payment) => quote_state(payment.status),
                    None => MeltQuoteState::Unpaid,
                },
                total_spent: Amount {
                    value: match first_payment(payments@, stored.quote.payment_request@) {
                        Some(payment) => low_64_bits(payment.total()) as u64,
                        None => 0,
                    },
                    unit: CurrencyUnit::Sat,
                },
            },
        ),
{
}

/// Whatever the backend does with an invoice goes by the payment hash of that invoice: the invoice
/// that it made, the quote that it gave and the payment that it sent.
pub proof fn law_identifier_is_payment_hash<E>(
    response: ReceivePaymentResponse,
    mint: AwaitMintStore,
    created: CreateIncomingPaymentResponse,
    quote: AwaitQuote,
    cost: PrepareSendPaymentResponse,
    melt: AwaitMeltStore,
    quoted: PaymentQuoteResponse,
    sent: AwaitSent,
    payment: Payment,
    paid: MakePaymentResponse,
)
    requires
        invoice_received(Ok::<_, E>(response), Ok(mint)),
        mint_quote_stored(mint.quote, Ok(()), Ok::<_, Error<E>>(created)),
        cost_received(quote, Ok::<_, E>(cost), Ok(melt)),
        melt_quote_stored(melt, Ok(()), Ok::<_, Error<E>>(quoted)),
        payment_sent(sent, Ok::<_, E>(payment), Ok(paid)),
    ensures
        created.request == response.payment_request,
        created.request_lookup_id matches PaymentIdentifier::PaymentHash(hash)
            && invoice_payment_hash(created.request@) == Ok::<_, ParseOrSemanticError>(hash@),
        quoted.request_lookup_id matches Some(PaymentIdentifier::PaymentHash(hash))
            && invoice_payment_hash(quote.bolt11@) == Ok::<_, ParseOrSemanticError>(hash@),
        paid.payment_lookup_id matches PaymentIdentifier::PaymentHash(hash)
            && invoice_payment_hash(sent.bolt11@) == Ok::<_, ParseOrSemanticError>(hash@),
{
}

/// The quote for an invoice and the payment of the same invoice go by the same identifier.
pub proof fn law_quote_and_payment_share_identifier<E>(
    quote: AwaitQuote,
    cost: PrepareSendPaymentResponse,
    stored: AwaitMeltStore,
    quoted: PaymentQuoteResponse,
    sent: AwaitSent,
    payment: Payment,
    paid: MakePaymentResponse,
)
    requires
        quote.bolt11@ == sent.bolt11@,
        cost_received(quote, Ok::<_, E>(cost), Ok(stored)),
        melt_quote_stored(stored, Ok(()), Ok::<_, Error<E>>(quoted)),
        payment_sent(sent, Ok::<_, E>(payment), Ok(paid)),
    ensures
        quoted.request_lookup_id == Some(paid.payment_lookup_id),
{
    let hash = stored.quote.payment_hash;
    let paid_hash = paid.payment_lookup_id->PaymentHash_0;
    assert(hash@ == paid_hash@);
    assert(hash =~= paid_hash);
}

/// A payment that was made is later found as it was reported: when the SDK lists it, completed, as
/// the first payment to its invoice, the check of the quoted invoice tells what `make_payment`
/// told.
pub proof fn law_check_confirms_payment<E>(
    sent: AwaitSent,
    payment: Payment,
    paid: MakePaymentResponse,
    state: AwaitSentList,
    payments: Vec<Payment>,
    checked: Result<MakePaymentResponse, Error<E>>,
)
    requires
        payment_sent(sent, Ok::<_, E>(payment), Ok(paid)),
        PaymentIdentifier::PaymentHash(state.payment_hash) == paid.payment_lookup_id,
        first_payment(payments@, state.payment_request@) == Some(payment),
        payment.status == PaymentStatus::Completed,
        sent_reported(state, Ok(payments), checked),
    ensures
        checked == Ok::<_, Error<E>>(paid),
{
}

/// Every event that the mint is told of is about a payment that reached the wallet: nothing is
/// told of a payment that left it.
pub proof fn law_only_incoming_payments_are_told(event: SdkEvent, reported: Option<Event>)
    requires
        event_reported(event, reported),
    ensures
        reported is Some ==> (event matches SdkEvent::PaymentSucceeded { payment }
            && payment.payment_type == PaymentType::Receive),
        event matches SdkEvent::PaymentSucceeded { payment } ==> (payment.payment_type
            == PaymentType::Send ==> reported is None),
{
}

/// The mint learns the same of a payment whether it is told or asks: where the payment hash that
/// the SDK reports is the one that the payment's invoice was stored under, the event and the check
/// give the same response.
pub proof fn law_event_agrees_with_check<E>(
    payment: Payment,
    told: Event,
    state: AwaitReceived,
    payments: Vec<Payment>,
    result: Result<Vec<WaitPaymentResponse>, Error<E>>,
)
    requires
        event_reported(SdkEvent::PaymentSucceeded { payment }, Some(told)),
        state.payment_hash@ == payment.hash(),
        first_payment(payments@, state.payment_request@) == Some(payment),
        payment.status == PaymentStatus::Completed,
        received_reported(state, Ok(payments), result),
    ensures
        told matches Event::PaymentReceived(response) && result matches Ok(reported) && reported@
            == seq![response],
{
    let response = told->PaymentReceived_0;
    let hash = response.payment_identifier->PaymentHash_0;
    assert(hash =~= state.payment_hash);
}

/// The mint counts as waiting from when it starts to wait until it cancels, whatever listeners
/// come and go; and neither changes the listeners.
pub proof fn law_waiting_lasts_until_cancelled(backend: BackendView, listener_id: Seq<char>)
    ensures
        !BackendView::idle().wait_invoice_active,
        backend.waiting().wait_invoice_active,
        !backend.cancelled().wait_invoice_active,
        backend.with_listener(listener_id).wait_invoice_active == backend.wait_invoice_active,
        backend.without_listeners().wait_invoice_active == backend.wait_invoice_active,
        backend.waiting().listeners == backend.listeners,
        backend.cancelled().listeners == backend.listeners,
{
}

/// The backend after it was given some listeners, one after the other.
pub open spec fn with_listeners(backend: BackendView, listener_ids: Seq<Seq<char>>) -> BackendView
    decreases listener_ids.len(),
{
    if listener_ids.len() == 0 {
        backend
    } else {
        with_listeners(backend, listener_ids.drop_last()).with_listener(listener_ids.last())
    }
}

/// Steps that follow on one another until the SDK is left.
pub open spec fn disconnect_run(steps: Seq<DisconnectStep>) -> bool {
    &&& steps.len() > 0
    &&& steps.last() is Disconnect
    &&& forall|i: int|
        0 <= i < steps.len() - 1 ==> (#[trigger] steps[i] matches DisconnectStep::RemoveListener(
            state,
        ) && listener_passed(state, steps[i + 1]))
}

/// Disconnecting removes each listener that the backend was given, once and in the order in which
/// they came, and then leaves the SDK. Whether a removal succeeded makes no difference.
pub proof fn law_disconnect_removes_every_listener(
    listener_ids: Seq<Seq<char>>,
    steps: Seq<DisconnectStep>,
)
    requires
        disconnect_run(steps),
        steps[0].removals() == with_listeners(BackendView::idle(), listener_ids).listeners,
    ensures
        steps.len() == listener_ids.len() + 1,
        forall|i: int|
            0 <= i < listener_ids.len() ==> (
            #[trigger] steps[i] matches DisconnectStep::RemoveListener(state) && state.listener_id@
                == listener_ids[i]),
{
    lemma_with_listeners(BackendView::idle(), listener_ids);
    assert(Seq::<Seq<char>>::empty() + listener_ids =~= listener_ids);
    lemma_disconnect_run(steps);
    assert(steps[0].removals() =~= listener_ids);
}

proof fn lemma_with_listeners(backend: BackendView, listener_ids: Seq<Seq<char>>)
    ensures
        with_listeners(backend, listener_ids).listeners == backend.listeners + listener_ids,
    decreases listener_ids.len(),
{
    if listener_ids.len() == 0 {
        assert(backend.listeners + listener_ids =~= backend.listeners);
    } else {
        lemma_with_listeners(backend, listener_ids.drop_last());
        assert((backend.listeners + listener_ids.drop_last()).push(listener_ids.last())
            =~= backend.listeners + listener_ids);
    }
}

proof fn lemma_disconnect_run(steps: Seq<DisconnectStep>)
    requires
        disconnect_run(steps),
    ensures
        steps.len() == steps[0].removals().len() + 1,
        forall|i: int|
            0 <= i < steps.len() - 1 ==> (
            #[trigger] steps[i] matches DisconnectStep::RemoveListener(state) && state.listener_id@
                == steps[0].removals()[i]),
    decreases steps.len(),
{
    if steps.len() > 1 {
        let rest = steps.drop_first();
        assert forall|i: int| 0 <= i < rest.len() - 1 implies (
        #[trigger] rest[i] matches DisconnectStep::RemoveListener(state) && listener_passed(
            state,
            rest[i + 1],
        )) by {
            assert(rest[i] == steps[i + 1]);
        }
        lemma_disconnect_run(rest);
        assert(steps[0] is RemoveListener);
        assert(rest[0] == steps[1]);
        assert forall|i: int| 0 <= i < steps.len() - 1 implies (
        #[trigger] steps[i] matches DisconnectStep::RemoveListener(state) && state.listener_id@
            == steps[0].removals()[i]) by {
            if i > 0 {
                assert(rest[i - 1] == steps[i]);
            }
        }
    }
}

} // verus!
