//! What the mint is answered, in terms of what it asked for and of what the SDK and the quote
//! database said: each law speaks of the functions themselves and of plain numbers and texts.

use crate::amount::{truncate_to_u32, truncate_to_u64, Amount, CurrencyUnit};
use crate::backend::BreezBackend;
use crate::clock::clock_read;
use crate::events::on_event;
use crate::hash::{hex_bytes, hex_digit, is_hex_digit, payment_hash_from_hex};
use crate::incoming::{AwaitInvoice, AwaitMintStore};
use crate::invoice::{invoice_payment_hash, ReadHash};
use crate::outgoing::{AwaitMeltStore, AwaitPreparation, AwaitQuote, AwaitSent};
use crate::payment::{
    Bolt11IncomingPaymentOptions, CreateIncomingPaymentResponse, Error, Event,
    IncomingPaymentOptions, MakePaymentResponse, OutgoingPaymentOptions, PaymentIdentifier,
    PaymentQuoteResponse, WaitPaymentResponse,
};
use crate::sdk::{
    ListPaymentsRequest, Payment, PaymentDetails, PaymentType, PrepareSendPaymentRequest,
    PrepareSendPaymentResponse, ReceivePaymentMethod, ReceivePaymentRequest,
    ReceivePaymentResponse, SdkEvent, SendPaymentMethod, SendPaymentRequest,
};
use crate::status::{
    first_payment, AwaitMeltLookup, AwaitMintLookup, AwaitReceived, AwaitSentList, CheckStep,
};
use vstd::prelude::*;

verus! {

/// An invoice is asked for with the wanted description and amount, and it runs out at the wanted
/// time: the seconds that it is good for, counted from `now`, lead to the wanted expiry, as far as
/// 32 bits can hold them. It is refused if and only if that time had passed.
pub proof fn law_invoice_is_as_wanted<E>(
    backend: BreezBackend,
    options: Bolt11IncomingPaymentOptions,
    now: u64,
    result: Result<(ReceivePaymentRequest, AwaitInvoice), Error<E>>,
)
    requires
        call_ensures(
            BreezBackend::create_incoming_payment_request_at::<E>,
            (&backend, IncomingPaymentOptions::Bolt11(options), now),
            result,
        ),
    ensures
        result is Err <==> (options.unix_expiry matches Some(expiry) && expiry < now),
        result matches Err(error) ==> error is AmountMismatch,
        result matches Ok((request, _)) ==> match request.payment_method {
            ReceivePaymentMethod::Bolt11Invoice {
                description,
                amount_sats,
                expiry_secs,
                payment_hash,
            } => {
                &&& options.description matches Some(text) ==> description@ == text@
                &&& options.description is None ==> description@ == "Payment"@
                &&& amount_sats is Some <==> options.amount != 0
                &&& amount_sats matches Some(sats) ==> sats == options.amount
                &&& payment_hash is None
                &&& expiry_secs is Some <==> options.unix_expiry is Some
                &&& options.unix_expiry matches Some(expiry) ==> {
                    &&& expiry - now < 0x1_0000_0000 ==> now + expiry_secs->Some_0 == expiry
                    &&& (expiry - now - expiry_secs->Some_0) % 0x1_0000_0000 == 0
                }
            },
        },
{
}

/// The clock decides on the expiry of an invoice, by what it says during the request: an invoice
/// that is wanted until `expiry` is good for the seconds that are left from that reading on, and
/// is refused if and only if none is left to be counted.
pub proof fn law_invoice_expiry_goes_by_the_clock<E>(
    backend: BreezBackend,
    unit: CurrencyUnit,
    options: Bolt11IncomingPaymentOptions,
    expiry: u64,
    result: Result<(ReceivePaymentRequest, AwaitInvoice), Error<E>>,
)
    requires
        options.unix_expiry == Some(expiry),
        call_ensures(
            BreezBackend::create_incoming_payment_request::<E>,
            (&backend, &unit, IncomingPaymentOptions::Bolt11(options)),
            result,
        ),
    ensures
        exists|now: u64| #[trigger]
            clock_read(now) && match result {
                Ok((request, _)) => {
                    &&& now <= expiry
                    &&& request.payment_method->expiry_secs is Some
                    &&& expiry - now < 0x1_0000_0000 ==> now
                        + request.payment_method->expiry_secs->Some_0 == expiry
                    &&& (expiry - now - request.payment_method->expiry_secs->Some_0)
                        % 0x1_0000_0000 == 0
                },
                Err(error) => error is AmountMismatch && expiry < now,
            },
{
}

/// Apart from the expiry the clock has no say: the description and the amount of an invoice are
/// those that were wanted, and one without a wanted expiry is always asked for, without one.
pub proof fn law_clock_decides_on_expiry_only<E>(
    backend: BreezBackend,
    unit: CurrencyUnit,
    options: Bolt11IncomingPaymentOptions,
    result: Result<(ReceivePaymentRequest, AwaitInvoice), Error<E>>,
)
    requires
        call_ensures(
            BreezBackend::create_incoming_payment_request::<E>,
            (&backend, &unit, IncomingPaymentOptions::Bolt11(options)),
            result,
        ),
    ensures
        options.unix_expiry is None ==> result is Ok,
        result matches Ok((request, _)) ==> match request.payment_method {
            ReceivePaymentMethod::Bolt11Invoice {
                description,
                amount_sats,
                expiry_secs,
                payment_hash,
            } => {
                &&& options.description matches Some(text) ==> description@ == text@
                &&& options.description is None ==> description@ == "Payment"@
                &&& amount_sats is Some <==> options.amount != 0
                &&& amount_sats matches Some(sats) ==> sats == options.amount
                &&& payment_hash is None
                &&& expiry_secs is Some <==> options.unix_expiry is Some
            },
        },
{
}

/// Only BOLT11 is served: anything else is refused, whoever pays and whatever the time.
pub proof fn law_only_bolt11_is_served<E>(
    backend: BreezBackend,
    unit: CurrencyUnit,
    incoming: IncomingPaymentOptions,
    outgoing: OutgoingPaymentOptions,
    now: u64,
    invoice: Result<(ReceivePaymentRequest, AwaitInvoice), Error<E>>,
    invoice_at: Result<(ReceivePaymentRequest, AwaitInvoice), Error<E>>,
    quote: Result<(PrepareSendPaymentRequest, AwaitQuote), Error<E>>,
    payment: Result<(PrepareSendPaymentRequest, AwaitPreparation), Error<E>>,
)
    requires
        call_ensures(
            BreezBackend::create_incoming_payment_request::<E>,
            (&backend, &unit, incoming),
            invoice,
        ),
        call_ensures(
            BreezBackend::create_incoming_payment_request_at::<E>,
            (&backend, incoming, now),
            invoice_at,
        ),
        call_ensures(BreezBackend::get_payment_quote::<E>, (&backend, &unit, outgoing), quote),
        call_ensures(BreezBackend::make_payment::<E>, (&backend, &unit, outgoing), payment),
    ensures
        (invoice matches Err(error) && error is UnsupportedPaymentOption) <==> incoming !is Bolt11,
        (invoice_at matches Err(error) && error is UnsupportedPaymentOption) <==> incoming
            !is Bolt11,
        quote is Err <==> outgoing !is Bolt11,
        quote matches Err(error) ==> error is UnsupportedPaymentOption,
        payment is Err <==> outgoing !is Bolt11,
        payment matches Err(error) ==> error is UnsupportedPaymentOption,
{
}

/// The mint is handed the invoice that the SDK made, unchanged, and knows it by the payment hash
/// that reading the invoice gives; that hash and that invoice are what was stored.
pub proof fn law_invoice_is_handed_out<E>(
    response: ReceivePaymentResponse,
    quoted: Result<AwaitMintStore, Error<E>>,
    result: Result<CreateIncomingPaymentResponse, Error<E>>,
)
    requires
        call_ensures(AwaitInvoice::resume::<E>, (AwaitInvoice, Ok(response)), quoted),
        quoted matches Ok(state) ==> call_ensures(
            AwaitMintStore::resume::<E>,
            (state, Ok(())),
            result,
        ),
    ensures
        match invoice_payment_hash(response.payment_request@) {
            Ok(bytes) => {
                &&& quoted matches Ok(state)
                &&& state.quote.payment_hash@ == bytes
                &&& state.quote.payment_request@ == response.payment_request@
                &&& result matches Ok(created)
                &&& created.request@ == response.payment_request@
                &&& created.request_lookup_id matches PaymentIdentifier::PaymentHash(hash)
                &&& hash@ == bytes
                &&& created.expiry is None
                &&& created.extra_json is None
            },
            Err(reason) => quoted == Err::<AwaitMintStore, Error<E>>(Error::Parse(reason)),
        },
{
}

/// A step that is given what reading the invoice gave goes by it.
pub proof fn law_read_hash_decides<E>(
    read: ReadHash,
    response: ReceivePaymentResponse,
    made: Result<AwaitMintStore, Error<E>>,
    quote: AwaitQuote,
    cost: PrepareSendPaymentResponse,
    costed: Result<AwaitMeltStore, Error<E>>,
    sent: AwaitSent,
    payment: Payment,
    paid: Result<MakePaymentResponse, Error<E>>,
)
    requires
        call_ensures(AwaitInvoice::resume_read::<E>, (AwaitInvoice, response, read), made),
        call_ensures(AwaitQuote::resume_read::<E>, (quote, cost, read), costed),
        call_ensures(AwaitSent::resume_read::<E>, (sent, payment, read), paid),
    ensures
        match read {
            Ok(hash) => {
                &&& made matches Ok(state)
                &&& state.quote.payment_hash@ == hash@
                &&& state.quote.payment_request@ == response.payment_request@
                &&& costed matches Ok(state)
                &&& state.quote.payment_hash@ == hash@
                &&& state.quote.payment_request@ == quote.bolt11@
                &&& cost.amount < 0x1_0000_0000_0000_0000 ==> state.amount == cost.amount
                &&& (cost.amount - state.amount) % 0x1_0000_0000_0000_0000 == 0
                &&& state.unit == quote.unit
                &&& paid matches Ok(response)
                &&& response.payment_lookup_id matches PaymentIdentifier::PaymentHash(id)
                &&& id@ == hash@
                &&& response.payment_proof is None
                &&& response.status is Paid
                &&& payment.amount + payment.fees < 0x1_0000_0000_0000_0000
                    ==> response.total_spent.value == payment.amount + payment.fees
                &&& (payment.amount + payment.fees - response.total_spent.value)
                    % 0x1_0000_0000_0000_0000 == 0
                &&& response.total_spent.unit is Sat
            },
            Err(reason) => {
                &&& made == Err::<AwaitMintStore, Error<E>>(Error::Parse(reason))
                &&& costed == Err::<AwaitMeltStore, Error<E>>(Error::Parse(reason))
                &&& paid == Err::<MakePaymentResponse, Error<E>>(Error::Parse(reason))
            },
        },
{
}

/// The fee of a quote is the Lightning fee and, where there is one, the transfer fee on top of it;
/// a payment that does not go over Lightning has none.
pub proof fn law_quoted_fee_is_the_sum_of_fees<E>(
    quote: AwaitQuote,
    cost: PrepareSendPaymentResponse,
    read: ReadHash,
    costed: Result<AwaitMeltStore, Error<E>>,
)
    requires
        call_ensures(AwaitQuote::resume_read::<E>, (quote, cost, read), costed),
        read is Ok,
    ensures
        costed is Ok,
        match cost.payment_method {
            SendPaymentMethod::Bolt11Invoice {
                spark_transfer_fee_sats: Some(transfer),
                lightning_fee_sats,
            } => costed->Ok_0.fee == lightning_fee_sats + transfer,
            SendPaymentMethod::Bolt11Invoice {
                spark_transfer_fee_sats: None,
                lightning_fee_sats,
            } => costed->Ok_0.fee == lightning_fee_sats,
            SendPaymentMethod::Other => costed->Ok_0.fee == 0,
        },
{
}

/// The mint is quoted what the SDK says that paying its invoice takes. The amount has the value
/// that the SDK prepared, as far as 64 bits can hold it, and the fee is the Lightning fee and the
/// transfer fee together; the unit that the mint asked for labels both and changes neither. The
/// quote goes by the payment hash of the invoice and is unpaid.
pub proof fn law_quote_tells_the_cost<E>(
    backend: BreezBackend,
    unit: CurrencyUnit,
    bolt11: String,
    asked: Result<(PrepareSendPaymentRequest, AwaitQuote), Error<E>>,
    cost: PrepareSendPaymentResponse,
    costed: Result<AwaitMeltStore, Error<E>>,
    result: Result<PaymentQuoteResponse, Error<E>>,
)
    requires
        call_ensures(
            BreezBackend::get_payment_quote::<E>,
            (&backend, &unit, OutgoingPaymentOptions::Bolt11 { bolt11 }),
            asked,
        ),
        asked matches Ok((_, state)) ==> call_ensures(
            AwaitQuote::resume::<E>,
            (state, Ok(cost)),
            costed,
        ),
        costed matches Ok(state) ==> call_ensures(
            AwaitMeltStore::resume::<E>,
            (state, Ok(())),
            result,
        ),
    ensures
        asked is Ok,
        asked->Ok_0.0.payment_request@ == bolt11@,
        asked->Ok_0.0.amount is None,
        asked->Ok_0.0.token_identifier is None,
        match invoice_payment_hash(bolt11@) {
            Ok(bytes) => {
                &&& costed matches Ok(state)
                &&& state.quote.payment_hash@ == bytes
                &&& state.quote.payment_request@ == bolt11@
                &&& result matches Ok(quote)
                &&& quote.request_lookup_id matches Some(PaymentIdentifier::PaymentHash(hash))
                &&& hash@ == bytes
                &&& cost.amount < 0x1_0000_0000_0000_0000 ==> quote.amount.value == cost.amount
                &&& (cost.amount - quote.amount.value) % 0x1_0000_0000_0000_0000 == 0
                &&& quote.amount.unit == unit
                &&& quote.fee.unit == unit
                &&& match cost.payment_method {
                    SendPaymentMethod::Bolt11Invoice {
                        spark_transfer_fee_sats: Some(transfer),
                        lightning_fee_sats,
                    } => quote.fee.value == lightning_fee_sats + transfer,
                    SendPaymentMethod::Bolt11Invoice {
                        spark_transfer_fee_sats: None,
                        lightning_fee_sats,
                    } => quote.fee.value == lightning_fee_sats,
                    SendPaymentMethod::Other => quote.fee.value == 0,
                }
                &&& quote.state is Unpaid
            },
            Err(reason) => costed == Err::<AwaitMeltStore, Error<E>>(Error::Parse(reason)),
        },
{
}

/// The mint pays the invoice that it asked for, for the amount of the invoice, with just what the
/// SDK prepared; and it is told that it spent the amount and the fees of the payment, in sats.
pub proof fn law_payment_tells_what_was_spent<P, E>(
    backend: BreezBackend,
    unit: CurrencyUnit,
    bolt11: String,
    asked: Result<(PrepareSendPaymentRequest, AwaitPreparation), Error<E>>,
    prepared: P,
    sending: Result<(SendPaymentRequest<P>, AwaitSent), Error<E>>,
    payment: Payment,
    result: Result<MakePaymentResponse, Error<E>>,
)
    requires
        call_ensures(
            BreezBackend::make_payment::<E>,
            (&backend, &unit, OutgoingPaymentOptions::Bolt11 { bolt11 }),
            asked,
        ),
        asked matches Ok((_, state)) ==> call_ensures(
            AwaitPreparation::resume::<P, E>,
            (state, Ok(prepared)),
            sending,
        ),
        sending matches Ok((_, state)) ==> call_ensures(
            AwaitSent::resume::<E>,
            (state, Ok(payment)),
            result,
        ),
    ensures
        asked is Ok,
        asked->Ok_0.0.payment_request@ == bolt11@,
        asked->Ok_0.0.amount is None,
        asked->Ok_0.0.token_identifier is None,
        sending is Ok,
        sending->Ok_0.0.prepare_response == prepared,
        sending->Ok_0.0.idempotency_key is None,
        match invoice_payment_hash(bolt11@) {
            Ok(bytes) => {
                &&& result matches Ok(paid)
                &&& paid.payment_lookup_id matches PaymentIdentifier::PaymentHash(hash)
                &&& hash@ == bytes
                &&& paid.payment_proof is None
                &&& paid.status is Paid
                &&& payment.amount + payment.fees < 0x1_0000_0000_0000_0000 ==> {
                    &&& paid.total_spent.value == payment.amount + payment.fees
                    &&& paid.total_spent.value >= payment.amount
                }
                &&& (payment.amount + payment.fees - paid.total_spent.value)
                    % 0x1_0000_0000_0000_0000 == 0
                &&& paid.total_spent.unit is Sat
            },
            Err(reason) => result == Err::<MakePaymentResponse, Error<E>>(Error::Parse(reason)),
        },
{
}

/// A failure of the SDK ends every operation and reaches the mint as the SDK put it.
pub proof fn law_sdk_failures_are_told<P, E>(
    error: E,
    made: Result<AwaitMintStore, Error<E>>,
    quote: AwaitQuote,
    costed: Result<AwaitMeltStore, Error<E>>,
    preparation: AwaitPreparation,
    sending: Result<(SendPaymentRequest<P>, AwaitSent), Error<E>>,
    sent: AwaitSent,
    paid: Result<MakePaymentResponse, Error<E>>,
    received: AwaitReceived,
    reported: Result<Vec<WaitPaymentResponse>, Error<E>>,
    sent_list: AwaitSentList,
    checked: Result<MakePaymentResponse, Error<E>>,
)
    requires
        call_ensures(AwaitInvoice::resume::<E>, (AwaitInvoice, Err(error)), made),
        call_ensures(AwaitQuote::resume::<E>, (quote, Err(error)), costed),
        call_ensures(AwaitPreparation::resume::<P, E>, (preparation, Err(error)), sending),
        call_ensures(AwaitSent::resume::<E>, (sent, Err(error)), paid),
        call_ensures(AwaitReceived::resume::<E>, (received, Err(error)), reported),
        call_ensures(AwaitSentList::resume::<E>, (sent_list, Err(error)), checked),
    ensures
        made matches Err(Error::Lightning(told)) && told == error,
        costed matches Err(Error::Lightning(told)) && told == error,
        sending matches Err(Error::Lightning(told)) && told == error,
        paid matches Err(Error::Lightning(told)) && told == error,
        reported matches Err(Error::Lightning(told)) && told == error,
        checked matches Err(Error::Lightning(told)) && told == error,
{
}

/// A failure of the quote database ends every operation and reaches the mint in its own words.
pub proof fn law_database_failures_are_told<E>(
    text: String,
    mint: AwaitMintStore,
    created: Result<CreateIncomingPaymentResponse, Error<E>>,
    melt: AwaitMeltStore,
    quoted: Result<PaymentQuoteResponse, Error<E>>,
    mint_lookup: AwaitMintLookup,
    receiving: Result<CheckStep<(ListPaymentsRequest, AwaitReceived)>, Error<E>>,
    melt_lookup: AwaitMeltLookup,
    sending: Result<(ListPaymentsRequest, AwaitSentList), Error<E>>,
)
    requires
        call_ensures(AwaitMintStore::resume::<E>, (mint, Err(text)), created),
        call_ensures(AwaitMeltStore::resume::<E>, (melt, Err(text)), quoted),
        call_ensures(AwaitMintLookup::resume::<E>, (mint_lookup, Err(text)), receiving),
        call_ensures(AwaitMeltLookup::resume::<E>, (melt_lookup, Err(text)), sending),
    ensures
        created matches Err(Error::Custom(told)) && told@ == text@,
        quoted matches Err(Error::Custom(told)) && told@ == text@,
        receiving matches Err(Error::Custom(told)) && told@ == text@,
        sending matches Err(Error::Custom(told)) && told@ == text@,
{
}

/// The check of an incoming payment looks its payment hash up, and goes on with the invoice that
/// was found under it to the payments that reached the wallet. Without a payment hash, or with
/// none that is known, there is nothing to report, and that is no error.
pub proof fn law_incoming_check_goes_by_payment_hash<E>(
    backend: BreezBackend,
    identifier: PaymentIdentifier,
    step: CheckStep<AwaitMintLookup>,
    found: Option<String>,
    listing: Result<CheckStep<(ListPaymentsRequest, AwaitReceived)>, Error<E>>,
)
    requires
        call_ensures(
            BreezBackend::check_incoming_payment_status,
            (&backend, &identifier),
            step,
        ),
        step matches CheckStep::Continue(state) ==> call_ensures(
            AwaitMintLookup::resume::<E>,
            (state, Ok(found)),
            listing,
        ),
    ensures
        match identifier {
            PaymentIdentifier::PaymentHash(hash) => {
                &&& step matches CheckStep::Continue(lookup)
                &&& lookup.payment_hash == hash
                &&& match found {
                    Some(invoice) => {
                        &&& listing matches Ok(CheckStep::Continue((request, state)))
                        &&& request.type_filter matches Some(types)
                        &&& types@ == seq![PaymentType::Receive]
                        &&& state.payment_hash == hash
                        &&& state.payment_request@ == invoice@
                    },
                    None => listing matches Ok(CheckStep::Done(reported)) && reported@.len() == 0,
                }
            },
            _ => step matches CheckStep::Done(reported) && reported@.len() == 0,
        },
{
}

/// The check of an outgoing payment looks its payment hash up, and goes on with the invoice that
/// was found under it to the payments that left the wallet. Without a payment hash, or with none
/// that is known, it is an error.
pub proof fn law_outgoing_check_goes_by_payment_hash<E>(
    backend: BreezBackend,
    identifier: PaymentIdentifier,
    step: Result<AwaitMeltLookup, Error<E>>,
    found: Option<String>,
    listing: Result<(ListPaymentsRequest, AwaitSentList), Error<E>>,
)
    requires
        call_ensures(BreezBackend::check_outgoing_payment::<E>, (&backend, &identifier), step),
        step matches Ok(state) ==> call_ensures(
            AwaitMeltLookup::resume::<E>,
            (state, Ok(found)),
            listing,
        ),
    ensures
        match identifier {
            PaymentIdentifier::PaymentHash(hash) => {
                &&& step matches Ok(lookup)
                &&& lookup.payment_hash == hash
                &&& match found {
                    Some(invoice) => {
                        &&& listing matches Ok((request, state))
                        &&& request.type_filter matches Some(types)
                        &&& types@ == seq![PaymentType::Send]
                        &&& state.payment_hash == hash
                        &&& state.payment_request@ == invoice@
                    },
                    None => listing matches Err(Error::Custom(text)) && text@
                        == "Payment not found in database"@,
                }
            },
            _ => step matches Err(Error::Custom(text)) && text@
                == "Unsupported payment identifier type"@,
        },
{
}

/// Looking for the first payment of a list to an invoice finds the one at `n` when its details
/// name just that invoice and those of none before it do.
proof fn lemma_first_payment_at(payments: Seq<Payment>, request: Seq<char>, n: int)
    requires
        0 <= n < payments.len(),
        payments[n].details matches Some(PaymentDetails::Lightning { invoice, .. }) && invoice@
            == request,
        forall|i: int|
            0 <= i < n ==> !((#[trigger] payments[i]).details matches Some(
                PaymentDetails::Lightning { invoice, .. },
            ) && invoice@ == request),
    ensures
        first_payment(payments, request) == Some(payments[n]),
    decreases n,
{
    if n > 0 {
        let rest = payments.drop_first();
        assert(!(payments[0].details matches Some(PaymentDetails::Lightning { invoice, .. })
            && invoice@ == request));
        assert forall|i: int| 0 <= i < n - 1 implies !((#[trigger] rest[i]).details matches Some(
            PaymentDetails::Lightning { invoice, .. },
        ) && invoice@ == request) by {
            assert(rest[i] == payments[i + 1]);
        }
        assert(rest[n - 1] == payments[n]);
        lemma_first_payment_at(rest, request, n - 1);
    }
}

/// Looking for the first payment of a list to an invoice finds none when no details name just
/// that invoice.
proof fn lemma_no_first_payment(payments: Seq<Payment>, request: Seq<char>)
    requires
        forall|i: int|
            0 <= i < payments.len() ==> !((#[trigger] payments[i]).details matches Some(
                PaymentDetails::Lightning { invoice, .. },
            ) && invoice@ == request),
    ensures
        first_payment(payments, request) is None,
    decreases payments.len(),
{
    if payments.len() > 0 {
        let rest = payments.drop_first();
        assert(!(payments[0].details matches Some(PaymentDetails::Lightning { invoice, .. })
            && invoice@ == request));
        assert forall|i: int| 0 <= i < rest.len() implies !((
        #[trigger] rest[i]).details matches Some(PaymentDetails::Lightning { invoice, .. })
            && invoice@ == request) by {
            assert(rest[i] == payments[i + 1]);
        }
        lemma_no_first_payment(rest, request);
    }
}

/// Of the payments that the SDK lists, the one at `n` stands for an invoice when its details name
/// just that invoice and those of none before it do. Once completed it is reported, alone, with
/// its own number and with its amount and fees in sats; before that nothing is. An outgoing one
/// tells its state, with what was spent on it in sats.
pub proof fn law_check_reports_the_first_payment_to_the_invoice<E>(
    received: AwaitReceived,
    sent: AwaitSentList,
    payments: Vec<Payment>,
    n: int,
    reported: Result<Vec<WaitPaymentResponse>, Error<E>>,
    checked: Result<MakePaymentResponse, Error<E>>,
)
    requires
        sent.payment_request@ == received.payment_request@,
        0 <= n < payments@.len(),
        payments@[n].details matches Some(PaymentDetails::Lightning { invoice, .. }) && invoice@
            == received.payment_request@,
        forall|i: int|
            0 <= i < n ==> !((#[trigger] payments@[i]).details matches Some(
                PaymentDetails::Lightning { invoice, .. },
            ) && invoice@ == received.payment_request@),
        call_ensures(AwaitReceived::resume::<E>, (received, Ok(payments)), reported),
        call_ensures(AwaitSentList::resume::<E>, (sent, Ok(payments)), checked),
    ensures
        reported is Ok,
        payments@[n].status is Completed ==> {
            &&& reported->Ok_0@.len() == 1
            &&& reported->Ok_0@[0].payment_identifier == PaymentIdentifier::PaymentHash(
                received.payment_hash,
            )
            &&& reported->Ok_0@[0].payment_id@ == payments@[n].id@
            &&& payments@[n].amount + payments@[n].fees < 0x1_0000_0000_0000_0000
                ==> reported->Ok_0@[0].payment_amount.value == payments@[n].amount
                + payments@[n].fees
            &&& (payments@[n].amount + payments@[n].fees
                - reported->Ok_0@[0].payment_amount.value) % 0x1_0000_0000_0000_0000 == 0
            &&& reported->Ok_0@[0].payment_amount.unit is Sat
        },
        payments@[n].status !is Completed ==> reported->Ok_0@.len() == 0,
        checked is Ok,
        checked->Ok_0.payment_lookup_id == PaymentIdentifier::PaymentHash(sent.payment_hash),
        checked->Ok_0.payment_proof is None,
        checked->Ok_0.status is Paid <==> payments@[n].status is Completed,
        checked->Ok_0.status is Pending <==> payments@[n].status is Pending,
        checked->Ok_0.status is Unpaid <==> payments@[n].status is Failed,
        payments@[n].amount + payments@[n].fees < 0x1_0000_0000_0000_0000
            ==> checked->Ok_0.total_spent.value == payments@[n].amount + payments@[n].fees,
        (payments@[n].amount + payments@[n].fees - checked->Ok_0.total_spent.value)
            % 0x1_0000_0000_0000_0000 == 0,
        checked->Ok_0.total_spent.unit is Sat,
{
    lemma_first_payment_at(payments@, received.payment_request@, n);
}

/// When the details of no listed payment name just the invoice, nothing is reported of it; an
/// outgoing one is unpaid, with nothing spent.
pub proof fn law_check_reports_no_other_payment<E>(
    received: AwaitReceived,
    sent: AwaitSentList,
    payments: Vec<Payment>,
    reported: Result<Vec<WaitPaymentResponse>, Error<E>>,
    checked: Result<MakePaymentResponse, Error<E>>,
)
    requires
        sent.payment_request@ == received.payment_request@,
        forall|i: int|
            0 <= i < payments@.len() ==> !((#[trigger] payments@[i]).details matches Some(
                PaymentDetails::Lightning { invoice, .. },
            ) && invoice@ == received.payment_request@),
        call_ensures(AwaitReceived::resume::<E>, (received, Ok(payments)), reported),
        call_ensures(AwaitSentList::resume::<E>, (sent, Ok(payments)), checked),
    ensures
        reported matches Ok(list) && list@.len() == 0,
        checked is Ok,
        checked->Ok_0.payment_lookup_id == PaymentIdentifier::PaymentHash(sent.payment_hash),
        checked->Ok_0.payment_proof is None,
        checked->Ok_0.status is Unpaid,
        checked->Ok_0.total_spent.value == 0,
        checked->Ok_0.total_spent.unit is Sat,
{
    lemma_no_first_payment(payments@, received.payment_request@);
}

/// Whatever is reported of an invoice was paid to it: some listed payment is completed, has the
/// reported number, and its details name the invoice to the last character.
pub proof fn law_reported_payment_was_made<E>(
    received: AwaitReceived,
    payments: Vec<Payment>,
    list: Vec<WaitPaymentResponse>,
)
    requires
        call_ensures(AwaitReceived::resume::<E>, (received, Ok(payments)), Ok(list)),
    ensures
        list@.len() <= 1,
        list@.len() == 1 ==> exists|i: int|
            0 <= i < payments@.len() && (#[trigger] payments@[i]).status is Completed
                && payments@[i].id@ == list@[0].payment_id@ && (
            payments@[i].details matches Some(PaymentDetails::Lightning { invoice, .. }) && invoice@
                == received.payment_request@),
{
    let request = received.payment_request@;
    if exists|i: int|
        0 <= i < payments@.len() && ((#[trigger] payments@[i]).details matches Some(
            PaymentDetails::Lightning { invoice, .. },
        ) && invoice@ == request) {
        let n = lemma_earliest(payments@, request);
        lemma_first_payment_at(payments@, request, n);
    } else {
        lemma_no_first_payment(payments@, request);
    }
}

/// Where some details name the invoice, there is a first place at which they do.
proof fn lemma_earliest(payments: Seq<Payment>, request: Seq<char>) -> (n: int)
    requires
        exists|i: int|
            0 <= i < payments.len() && ((#[trigger] payments[i]).details matches Some(
                PaymentDetails::Lightning { invoice, .. },
            ) && invoice@ == request),
    ensures
        0 <= n < payments.len(),
        payments[n].details matches Some(PaymentDetails::Lightning { invoice, .. }) && invoice@
            == request,
        forall|i: int|
            0 <= i < n ==> !((#[trigger] payments[i]).details matches Some(
                PaymentDetails::Lightning { invoice, .. },
            ) && invoice@ == request),
    decreases payments.len(),
{
    let i = choose|i: int|
        0 <= i < payments.len() && ((#[trigger] payments[i]).details matches Some(
            PaymentDetails::Lightning { invoice, .. },
        ) && invoice@ == request);
    let before = payments.take(i);
    if exists|j: int|
        0 <= j < before.len() && ((#[trigger] before[j]).details matches Some(
            PaymentDetails::Lightning { invoice, .. },
        ) && invoice@ == request) {
        let n = lemma_earliest(before, request);
        assert(before[n] == payments[n]);
        assert forall|j: int| 0 <= j < n implies !((#[trigger] payments[j]).details matches Some(
            PaymentDetails::Lightning { invoice, .. },
        ) && invoice@ == request) by {
            assert(before[j] == payments[j]);
        }
        n
    } else {
        assert forall|j: int| 0 <= j < i implies !((#[trigger] payments[j]).details matches Some(
            PaymentDetails::Lightning { invoice, .. },
        ) && invoice@ == request) by {
            assert(before[j] == payments[j]);
        }
        i
    }
}

/// `c` is a way to write the hexadecimal digit `value`.
pub open spec fn writes_digit(c: char, value: int) -> bool {
    ||| 0 <= value < 10 && c as int == '0' as int + value
    ||| 10 <= value < 16 && c as int == 'a' as int + (value - 10)
    ||| 10 <= value < 16 && c as int == 'A' as int + (value - 10)
}

/// `text` is a way to write `bytes` in hexadecimal: two digits each, in their order, the high
/// digit of each byte first.
pub open spec fn writes_bytes(text: Seq<char>, bytes: Seq<u8>) -> bool {
    &&& text.len() == 2 * bytes.len()
    &&& forall|i: int|
        0 <= i < bytes.len() ==> writes_digit(text[2 * i], (#[trigger] bytes[i]) as int / 16)
            && writes_digit(text[2 * i + 1], bytes[i] as int % 16)
}

/// A text that reads as hexadecimal is a way to write the bytes that it reads as.
proof fn lemma_hex_is_written(text: Seq<char>)
    requires
        text.len() % 2 == 0,
        forall|i: int| 0 <= i < text.len() ==> is_hex_digit(#[trigger] text[i]),
    ensures
        writes_bytes(text, hex_bytes(text)),
{
    let bytes = hex_bytes(text);
    assert forall|i: int| 0 <= i < bytes.len() implies writes_digit(
        text[2 * i],
        (#[trigger] bytes[i]) as int / 16,
    ) && writes_digit(text[2 * i + 1], bytes[i] as int % 16) by {
        assert(is_hex_digit(text[2 * i]) && is_hex_digit(text[2 * i + 1]));
    }
}

/// A text that writes some bytes is hexadecimal and reads as these bytes.
proof fn lemma_written_is_hex(text: Seq<char>, bytes: Seq<u8>)
    requires
        writes_bytes(text, bytes),
    ensures
        text.len() % 2 == 0,
        forall|i: int| 0 <= i < text.len() ==> is_hex_digit(#[trigger] text[i]),
        hex_bytes(text) == bytes,
{
    assert forall|i: int| 0 <= i < text.len() implies is_hex_digit(#[trigger] text[i]) by {
        let byte = bytes[i / 2];
        assert(i == 2 * (i / 2) || i == 2 * (i / 2) + 1);
    }
    assert forall|i: int| 0 <= i < bytes.len() implies hex_bytes(text)[i] == bytes[i] by {
        assert(hex_digit(text[2 * i]) == bytes[i] as int / 16);
        assert(hex_digit(text[2 * i + 1]) == bytes[i] as int % 16);
    }
    assert(hex_bytes(text) =~= bytes);
}

/// Reading a payment hash undoes writing it: the text of 32 bytes, in digits of either case,
/// reads as these bytes in their order, and nothing else reads as a payment hash.
pub proof fn law_payment_hash_reads_as_written(
    text: &str,
    hash: [u8; 32],
    read: Option<[u8; 32]>,
)
    requires
        call_ensures(payment_hash_from_hex, (text,), read),
    ensures
        writes_bytes(text@, hash@) ==> read == Some(hash),
        read matches Some(bytes) ==> writes_bytes(text@, bytes@),
{
    if writes_bytes(text@, hash@) {
        lemma_written_is_hex(text@, hash@);
        assert(read->Some_0 =~= hash);
    }
    if read is Some {
        lemma_hex_is_written(text@);
    }
}

/// A payment that reached the wallet over Lightning is told to the mint under its payment hash:
/// where the SDK writes the hash in hexadecimal, the event has these very bytes, in their order.
/// It has the payment's own number, and its amount and fees in sats.
pub proof fn law_received_payment_is_told_by_its_hash(
    payment: Payment,
    hash: [u8; 32],
    told: Option<Event>,
)
    requires
        payment.payment_type is Receive,
        payment.details matches Some(PaymentDetails::Lightning { payment_hash, .. })
            && writes_bytes(payment_hash@, hash@),
        call_ensures(on_event, (SdkEvent::PaymentSucceeded { payment },), told),
    ensures
        told is Some,
        told->Some_0->PaymentReceived_0.payment_identifier == PaymentIdentifier::PaymentHash(hash),
        told->Some_0->PaymentReceived_0.payment_id@ == payment.id@,
        payment.amount + payment.fees < 0x1_0000_0000_0000_0000
            ==> told->Some_0->PaymentReceived_0.payment_amount.value == payment.amount
            + payment.fees,
        (payment.amount + payment.fees - told->Some_0->PaymentReceived_0.payment_amount.value)
            % 0x1_0000_0000_0000_0000 == 0,
        told->Some_0->PaymentReceived_0.payment_amount.unit is Sat,
{
    let text = payment.details->Some_0->payment_hash@;
    lemma_written_is_hex(text, hash@);
    assert(told->Some_0->PaymentReceived_0.payment_identifier->PaymentHash_0 =~= hash);
}

/// The mint is told of nothing else: every event is about a payment that reached the wallet over
/// Lightning, and its payment hash is the one that the SDK wrote.
pub proof fn law_told_payment_was_received(event: SdkEvent, told: Event)
    requires
        call_ensures(on_event, (event,), Some(told)),
    ensures
        event matches SdkEvent::PaymentSucceeded { payment } && payment.payment_type is Receive
            && (payment.details matches Some(PaymentDetails::Lightning { payment_hash, .. })
            && told->PaymentReceived_0.payment_identifier matches PaymentIdentifier::PaymentHash(
            hash,
        ) && writes_bytes(payment_hash@, hash@)),
{
    let text = event->payment.details->Some_0->payment_hash@;
    lemma_hex_is_written(text);
}

/// A payment to an invoice that the mint was handed is told to it under the identifier that came
/// with the invoice, where the SDK writes the payment hash of that invoice in hexadecimal.
pub proof fn law_told_payment_matches_invoice<E>(
    response: ReceivePaymentResponse,
    state: AwaitMintStore,
    created: CreateIncomingPaymentResponse,
    payment: Payment,
    told: Option<Event>,
)
    requires
        call_ensures(AwaitInvoice::resume::<E>, (AwaitInvoice, Ok(response)), Ok(state)),
        call_ensures(AwaitMintStore::resume::<E>, (state, Ok(())), Ok(created)),
        payment.payment_type is Receive,
        payment.details matches Some(PaymentDetails::Lightning { payment_hash, .. })
            && writes_bytes(
            payment_hash@,
            invoice_payment_hash(response.payment_request@)->Ok_0,
        ),
        call_ensures(on_event, (SdkEvent::PaymentSucceeded { payment },), told),
    ensures
        told is Some,
        told->Some_0->PaymentReceived_0.payment_identifier == created.request_lookup_id,
{
    law_received_payment_is_told_by_its_hash(payment, state.quote.payment_hash, told);
}

/// The tests for numbers that cannot be added up tell just these: a sum beyond what its type
/// holds, of a payment that counts.
pub proof fn law_sums_are_tested(
    payment: Payment,
    fits: bool,
    cost: PrepareSendPaymentResponse,
    fee_fits: bool,
    event: SdkEvent,
    event_fits: bool,
)
    requires
        call_ensures(Payment::has_total, (&payment,), fits),
        call_ensures(PrepareSendPaymentResponse::has_fee, (&cost,), fee_fits),
        call_ensures(SdkEvent::has_total, (&event,), event_fits),
    ensures
        fits <==> payment.amount + payment.fees <= u128::MAX,
        !fee_fits <==> (cost.payment_method matches SendPaymentMethod::Bolt11Invoice {
            spark_transfer_fee_sats: Some(transfer),
            lightning_fee_sats,
        } && transfer + lightning_fee_sats > u64::MAX),
        !event_fits ==> (event matches SdkEvent::PaymentSucceeded { payment: counted }
            && counted.amount + counted.fees > u128::MAX && counted.payment_type is Receive
            && counted.details matches Some(PaymentDetails::Lightning { .. })),
        event_fits ==> call_requires(on_event, (event,)),
{
}

/// Every reply whose sums can be held is taken: nothing else is asked of what the SDK says.
pub proof fn law_replies_are_taken<E>(
    read: ReadHash,
    payment: Payment,
    sent: AwaitSent,
    cost: PrepareSendPaymentResponse,
    quote: AwaitQuote,
    payments: Vec<Payment>,
    received: AwaitReceived,
    sent_list: AwaitSentList,
    identifier: PaymentIdentifier,
)
    requires
        payment.amount + payment.fees <= u128::MAX,
        cost.payment_method matches SendPaymentMethod::Bolt11Invoice {
            spark_transfer_fee_sats: Some(transfer),
            lightning_fee_sats,
        } ==> transfer + lightning_fee_sats <= u64::MAX,
        forall|i: int|
            0 <= i < payments@.len() ==> (#[trigger] payments@[i]).amount + payments@[i].fees
                <= u128::MAX,
    ensures
        call_requires(AwaitSent::resume::<E>, (sent, Ok::<Payment, E>(payment))),
        call_requires(AwaitSent::resume_read::<E>, (sent, payment, read)),
        call_requires(Payment::report, (&payment, identifier)),
        call_requires(Payment::total_sats, (&payment,)),
        call_requires(on_event, (SdkEvent::PaymentSucceeded { payment },)),
        call_requires(on_event, (SdkEvent::Other,)),
        call_requires(AwaitQuote::resume::<E>, (quote, Ok::<PrepareSendPaymentResponse, E>(cost))),
        call_requires(AwaitQuote::resume_read::<E>, (quote, cost, read)),
        call_requires(AwaitReceived::resume::<E>, (received, Ok::<Vec<Payment>, E>(payments))),
        call_requires(AwaitSentList::resume::<E>, (sent_list, Ok::<Vec<Payment>, E>(payments))),
{
    let request = received.payment_request@;
    lemma_first_payment_is_listed(payments@, request);
    lemma_first_payment_is_listed(payments@, sent_list.payment_request@);
}

/// The first payment to an invoice is one of the list.
proof fn lemma_first_payment_is_listed(payments: Seq<Payment>, request: Seq<char>)
    ensures
        first_payment(payments, request) matches Some(payment) ==> exists|i: int|
            0 <= i < payments.len() && #[trigger] payments[i] == payment,
    decreases payments.len(),
{
    if payments.len() > 0 && first_payment(payments, request) is Some {
        let payment = first_payment(payments, request)->Some_0;
        if payments[0] != payment {
            let rest = payments.drop_first();
            lemma_first_payment_is_listed(rest, request);
            let i = choose|i: int| 0 <= i < rest.len() && #[trigger] rest[i] == payment;
            assert(payments[i + 1] == payment);
        }
    }
}

/// The tests of a list of payments tell a sum that cannot be held just where the payment that
/// stands for the invoice has it, and for an incoming one only when it is completed.
pub proof fn law_lists_are_tested(
    received: AwaitReceived,
    sent: AwaitSentList,
    payments: Vec<Payment>,
    n: int,
    incoming: bool,
    outgoing: bool,
)
    requires
        sent.payment_request@ == received.payment_request@,
        0 <= n < payments@.len(),
        payments@[n].details matches Some(PaymentDetails::Lightning { invoice, .. }) && invoice@
            == received.payment_request@,
        forall|i: int|
            0 <= i < n ==> !((#[trigger] payments@[i]).details matches Some(
                PaymentDetails::Lightning { invoice, .. },
            ) && invoice@ == received.payment_request@),
        call_ensures(AwaitReceived::can_take, (&received, &payments), incoming),
        call_ensures(AwaitSentList::can_take, (&sent, &payments), outgoing),
    ensures
        incoming <==> (payments@[n].status is Completed ==> payments@[n].amount + payments@[n].fees
            <= u128::MAX),
        outgoing <==> payments@[n].amount + payments@[n].fees <= u128::MAX,
{
    lemma_first_payment_at(payments@, received.payment_request@, n);
}

/// A list passes its test when the details of no payment in it name just the invoice; and a list
/// that passes its test is taken.
pub proof fn law_tested_lists_are_taken<E>(
    received: AwaitReceived,
    sent: AwaitSentList,
    payments: Vec<Payment>,
    incoming: bool,
    outgoing: bool,
)
    requires
        sent.payment_request@ == received.payment_request@,
        call_ensures(AwaitReceived::can_take, (&received, &payments), incoming),
        call_ensures(AwaitSentList::can_take, (&sent, &payments), outgoing),
    ensures
        (forall|i: int|
            0 <= i < payments@.len() ==> !((#[trigger] payments@[i]).details matches Some(
                PaymentDetails::Lightning { invoice, .. },
            ) && invoice@ == received.payment_request@)) ==> incoming && outgoing,
        incoming ==> call_requires(
            AwaitReceived::resume::<E>,
            (received, Ok::<Vec<Payment>, E>(payments)),
        ),
        outgoing ==> call_requires(
            AwaitSentList::resume::<E>,
            (sent, Ok::<Vec<Payment>, E>(payments)),
        ),
{
    if forall|i: int|
        0 <= i < payments@.len() ==> !((#[trigger] payments@[i]).details matches Some(
            PaymentDetails::Lightning { invoice, .. },
        ) && invoice@ == received.payment_request@) {
        lemma_no_first_payment(payments@, received.payment_request@);
    }
}

/// What a payment says of itself: whether its details name an invoice to the last character, and
/// what its amount and fees come to, as far as 64 bits can hold it.
pub proof fn law_payment_speaks_for_itself(
    payment: Payment,
    request: String,
    found: bool,
    sats: u64,
    identifier: PaymentIdentifier,
    response: WaitPaymentResponse,
)
    requires
        call_ensures(Payment::is_for, (&payment, &request), found),
        call_ensures(Payment::total_sats, (&payment,), sats),
        call_ensures(Payment::report, (&payment, identifier), response),
    ensures
        found <==> (payment.details matches Some(PaymentDetails::Lightning { invoice, .. })
            && invoice@ == request@),
        payment.amount + payment.fees < 0x1_0000_0000_0000_0000 ==> sats == payment.amount
            + payment.fees,
        (payment.amount + payment.fees - sats) % 0x1_0000_0000_0000_0000 == 0,
        response.payment_identifier == identifier,
        response.payment_id@ == payment.id@,
        response.payment_amount.value == sats,
        response.payment_amount.unit is Sat,
{
}

/// Cutting a number to fewer bits keeps it where it fits, and takes whole multiples of what does
/// not fit away where it does not. Copies are equal to what they were made of.
pub proof fn law_numbers_and_copies_are_kept(
    n: u128,
    low: u64,
    m: u64,
    low_32: u32,
    value: u64,
    unit: CurrencyUnit,
    amount: Amount,
    unit_copy: CurrencyUnit,
    identifier: PaymentIdentifier,
    identifier_copy: PaymentIdentifier,
)
    requires
        call_ensures(truncate_to_u64, (n,), low),
        call_ensures(truncate_to_u32, (m,), low_32),
        call_ensures(Amount::new, (value, unit), amount),
        call_ensures(CurrencyUnit::clone, (&unit,), unit_copy),
        call_ensures(PaymentIdentifier::clone, (&identifier,), identifier_copy),
    ensures
        n < 0x1_0000_0000_0000_0000 ==> low == n,
        (n - low) % 0x1_0000_0000_0000_0000 == 0,
        m < 0x1_0000_0000 ==> low_32 == m,
        (m - low_32) % 0x1_0000_0000 == 0,
        amount.value == value,
        amount.unit == unit,
        unit_copy == unit,
        identifier_copy == identifier,
{
}

} // verus!
