//! Status checks: finding the payment that belongs to a quote.

use crate::amount::{low_64_bits, Amount, CurrencyUnit};
use crate::backend::BreezBackend;
use crate::payment::{
    Error, MakePaymentResponse, MeltQuoteState, PaymentIdentifier, WaitPaymentResponse,
};
use crate::sdk::{ListPaymentsRequest, Payment, PaymentStatus, PaymentType};
use vstd::prelude::*;

verus! {

/// A check that goes on, or that is done because there is nothing to find.
#[derive(Debug, PartialEq, Eq)]
pub enum CheckStep<S> {
    Continue(S),
    Done(Vec<WaitPaymentResponse>),
}

impl<S> CheckStep<S> {
    /// The check is done and found no payment.
    pub open spec fn found_nothing(self) -> bool {
        self matches CheckStep::Done(payments) && payments@.len() == 0
    }
}

/// `payment_hash` is to be looked up in the table of mint quotes.
#[derive(Debug, PartialEq, Eq)]
pub struct AwaitMintLookup {
    pub payment_hash: [u8; 32],
}

/// The payments that reached the wallet were asked for.
#[derive(Debug, PartialEq, Eq)]
pub struct AwaitReceived {
    pub payment_hash: [u8; 32],
    pub payment_request: String,
}

/// `payment_hash` is to be looked up in the table of melt quotes.
#[derive(Debug, PartialEq, Eq)]
pub struct AwaitMeltLookup {
    pub payment_hash: [u8; 32],
}

/// The payments that left the wallet were asked for.
#[derive(Debug, PartialEq, Eq)]
pub struct AwaitSentList {
    pub payment_hash: [u8; 32],
    pub payment_request: String,
}

/// The first payment of a list that went to the invoice `request`.
pub open spec fn first_payment(payments: Seq<Payment>, request: Seq<char>) -> Option<Payment>
    decreases payments.len(),
{
    if payments.len() == 0 {
        None
    } else if payments[0].pays(request) {
        Some(payments[0])
    } else {
        first_payment(payments.drop_first(), request)
    }
}

/// Payments that did not go to the invoice can be passed over in looking for the first that did.
proof fn lemma_first_payment_skips(payments: Seq<Payment>, request: Seq<char>, n: int)
    requires
        0 <= n <= payments.len(),
        forall|i: int| 0 <= i < n ==> !(#[trigger] payments[i]).pays(request),
    ensures
        first_payment(payments, request) == first_payment(payments.skip(n), request),
    decreases n,
{
    if n == 0 {
        assert(payments.skip(0) =~= payments);
    } else {
        assert forall|i: int| 0 <= i < n - 1 implies !(
        #[trigger] payments.drop_first()[i]).pays(request) by {
            assert(payments.drop_first()[i] == payments[i + 1]);
        }
        lemma_first_payment_skips(payments.drop_first(), request, n - 1);
        assert(payments.drop_first().skip(n - 1) =~= payments.skip(n));
    }
}

/// Finds the first payment of a list that went to the invoice `request`.
fn find_payment<'a>(payments: &'a Vec<Payment>, request: &String) -> (found: Option<&'a Payment>)
    ensures
        match found {
            Some(payment) => first_payment(payments@, request@) == Some(*payment),
            None => first_payment(payments@, request@) is None,
        },
{
    let mut i: usize = 0;
    while i < payments.len()
        invariant
            i <= payments@.len(),
            forall|j: int| 0 <= j < i ==> !(#[trigger] payments@[j]).pays(request@),
        decreases payments@.len() - i,
    {
        if payments[i].is_for(request) {
            proof {
                lemma_first_payment_skips(payments@, request@, i as int);
                assert(payments@.skip(i as int)[0] == payments@[i as int]);
            }
            return Some(&payments[i]);
        }
        i = i + 1;
    }
    proof {
        lemma_first_payment_skips(payments@, request@, i as int);
    }
    None
}

impl ListPaymentsRequest {
    /// The request asks for the payments of one type only.
    pub open spec fn asks_for_all(self, payment_type: PaymentType) -> bool {
        self.type_filter matches Some(filter) && filter@ == seq![payment_type]
    }

    fn all(payment_type: PaymentType) -> (request: Self)
        ensures
            request.asks_for_all(payment_type),
    {
        let filter: Vec<PaymentType> = vec![payment_type];
        assert(filter@ =~= seq![payment_type]);
        ListPaymentsRequest { type_filter: Some(filter) }
    }
}

/// How an incoming payment is checked: by its payment hash; nothing is known of one that goes by
/// another identifier.
pub open spec fn incoming_check_started(
    identifier: PaymentIdentifier,
    step: CheckStep<AwaitMintLookup>,
) -> bool {
    match identifier {
        PaymentIdentifier::PaymentHash(payment_hash) => step == CheckStep::Continue(
            AwaitMintLookup { payment_hash },
        ),
        _ => step.found_nothing(),
    }
}

/// How the check of an incoming payment goes on once its invoice was looked up.
pub open spec fn mint_quote_found<E>(
    state: AwaitMintLookup,
    found: Result<Option<String>, String>,
    result: Result<CheckStep<(ListPaymentsRequest, AwaitReceived)>, Error<E>>,
) -> bool {
    match found {
        Ok(Some(payment_request)) => {
            &&& result matches Ok(CheckStep::Continue((request, next)))
            &&& request.asks_for_all(PaymentType::Receive)
            &&& next == (AwaitReceived { payment_hash: state.payment_hash, payment_request })
        },
        Ok(None) => result matches Ok(step) && step.found_nothing(),
        Err(text) => result == Err::<
            CheckStep<(ListPaymentsRequest, AwaitReceived)>,
            Error<E>,
        >(Error::Custom(text)),
    }
}

/// What the mint is told of an incoming payment, of all the payments that reached the wallet:
/// the first one to the invoice, and that only when it is completed.
pub open spec fn received_reported<E>(
    state: AwaitReceived,
    reply: Result<Vec<Payment>, E>,
    result: Result<Vec<WaitPaymentResponse>, Error<E>>,
) -> bool {
    match reply {
        Ok(payments) => match state.completed(payments@) {
            Some(payment) => result matches Ok(reported) && reported@ == seq![
                payment.reported_as(PaymentIdentifier::PaymentHash(state.payment_hash)),
            ],
            None => result matches Ok(reported) && reported@.len() == 0,
        },
        Err(error) => result == Err::<Vec<WaitPaymentResponse>, Error<E>>(Error::Lightning(error)),
    }
}

/// How an outgoing payment is checked: by its payment hash, and by nothing else.
pub open spec fn outgoing_check_started<E>(
    identifier: PaymentIdentifier,
    result: Result<AwaitMeltLookup, Error<E>>,
) -> bool {
    match identifier {
        PaymentIdentifier::PaymentHash(payment_hash) => result == Ok::<AwaitMeltLookup, Error<E>>(
            AwaitMeltLookup { payment_hash },
        ),
        _ => result matches Err(error) && error.says("Unsupported payment identifier type"@),
    }
}

/// How the check of an outgoing payment goes on once its invoice was looked up.
pub open spec fn melt_quote_found<E>(
    state: AwaitMeltLookup,
    found: Result<Option<String>, String>,
    result: Result<(ListPaymentsRequest, AwaitSentList), Error<E>>,
) -> bool {
    match found {
        Ok(Some(payment_request)) => {
            &&& result matches Ok((request, next))
            &&& request.asks_for_all(PaymentType::Send)
            &&& next == (AwaitSentList { payment_hash: state.payment_hash, payment_request })
        },
        Ok(None) => result matches Err(error) && error.says("Payment not found in database"@),
        Err(text) => result == Err::<(ListPaymentsRequest, AwaitSentList), Error<E>>(
            Error::Custom(text),
        ),
    }
}

/// The state of the quote of a payment that the SDK knows.
pub open spec fn quote_state(status: PaymentStatus) -> MeltQuoteState {
    match status {
        PaymentStatus::Completed => MeltQuoteState::Paid,
        PaymentStatus::Failed => MeltQuoteState::Unpaid,
        PaymentStatus::Pending => MeltQuoteState::Pending,
    }
}

/// What the mint is told of an outgoing payment, of all the payments that left the wallet: the
/// state of the first one to the invoice; an invoice that none went to is unpaid.
pub open spec fn sent_reported<E>(
    state: AwaitSentList,
    reply: Result<Vec<Payment>, E>,
    result: Result<MakePaymentResponse, Error<E>>,
) -> bool {
    match reply {
        Ok(payments) => {
            let (status, spent) = match first_payment(payments@, state.payment_request@) {
                Some(payment) => (quote_state(payment.status), low_64_bits(payment.total())),
                None => (MeltQuoteState::Unpaid, 0),
            };
            result == Ok::<MakePaymentResponse, Error<E>>(
                MakePaymentResponse {
                    payment_lookup_id: PaymentIdentifier::PaymentHash(state.payment_hash),
                    payment_proof: None,
                    status,
                    total_spent: Amount { value: spent as u64, unit: CurrencyUnit::Sat },
                },
            )
        },
        Err(error) => result == Err::<MakePaymentResponse, Error<E>>(Error::Lightning(error)),
    }
}

impl BreezBackend {
    /// Checks whether an incoming payment was made.
    pub fn check_incoming_payment_status(&self, payment_identifier: &PaymentIdentifier) -> (step:
        CheckStep<AwaitMintLookup>)
        ensures
            incoming_check_started(*payment_identifier, step),
    {
        match payment_identifier {
            PaymentIdentifier::PaymentHash(payment_hash) => CheckStep::Continue(
                AwaitMintLookup { payment_hash: *payment_hash },
            ),
            _ => CheckStep::Done(Vec::new()),
        }
    }

    /// Checks what became of an outgoing payment.
    pub fn check_outgoing_payment<E>(&self, payment_identifier: &PaymentIdentifier) -> (result:
        Result<AwaitMeltLookup, Error<E>>)
        ensures
            outgoing_check_started(*payment_identifier, result),
    {
        match payment_identifier {
            PaymentIdentifier::PaymentHash(payment_hash) => Ok(
                AwaitMeltLookup { payment_hash: *payment_hash },
            ),
            _ => Err(Error::Custom("Unsupported payment identifier type".to_owned())),
        }
    }
}

impl AwaitMintLookup {
    /// Takes the outcome of the look-up, a failure as its text. With an invoice, asks for the
    /// payments that reached the wallet.
    pub fn resume<E>(self, found: Result<Option<String>, String>) -> (result: Result<
        CheckStep<(ListPaymentsRequest, AwaitReceived)>,
        Error<E>,
    >)
        ensures
            mint_quote_found(self, found, result),
    {
        match found {
            Ok(Some(payment_request)) => {
                let next = AwaitReceived { payment_hash: self.payment_hash, payment_request };
                Ok(CheckStep::Continue((ListPaymentsRequest::all(PaymentType::Receive), next)))
            },
            Ok(None) => Ok(CheckStep::Done(Vec::new())),
            Err(text) => Err(Error::Custom(text)),
        }
    }
}

impl AwaitReceived {
    /// The completed payment that the mint is to be told of.
    pub open spec fn completed(self, payments: Seq<Payment>) -> Option<Payment> {
        match first_payment(payments, self.payment_request@) {
            Some(payment) => if payment.status == PaymentStatus::Completed {
                Some(payment)
            } else {
                None
            },
            None => None,
        }
    }

    /// The numbers of the payment, if the mint is to be told of one, can be added up.
    pub open spec fn takes(self, payments: Seq<Payment>) -> bool {
        self.completed(payments) matches Some(payment) ==> payment.total_fits()
    }

    /// Whether the numbers of the payment, if the mint is to be told of one, can be added up.
    pub fn can_take(&self, payments: &Vec<Payment>) -> (fits: bool)
        ensures
            fits == self.takes(payments@),
    {
        match find_payment(payments, &self.payment_request) {
            Some(payment) => payment.status != PaymentStatus::Completed || payment.has_total(),
            None => true,
        }
    }

    /// Takes the SDK's reply.
    pub fn resume<E>(self, reply: Result<Vec<Payment>, E>) -> (result: Result<
        Vec<WaitPaymentResponse>,
        Error<E>,
    >)
        requires
            reply matches Ok(payments) ==> self.takes(payments@),
        ensures
            received_reported(self, reply, result),
    {
        match reply {
            Ok(payments) => {
                let mut reported: Vec<WaitPaymentResponse> = Vec::new();
                if let Some(payment) = find_payment(&payments, &self.payment_request) {
                    if payment.status == PaymentStatus::Completed {
                        let identifier = PaymentIdentifier::PaymentHash(self.payment_hash);
                        reported.push(payment.report(identifier));
                    }
                }
                Ok(reported)
            },
            Err(error) => Err(Error::Lightning(error)),
        }
    }
}

impl AwaitMeltLookup {
    /// Takes the outcome of the look-up, a failure as its text. With an invoice, asks for the
    /// payments that left the wallet.
    pub fn resume<E>(self, found: Result<Option<String>, String>) -> (result: Result<
        (ListPaymentsRequest, AwaitSentList),
        Error<E>,
    >)
        ensures
            melt_quote_found(self, found, result),
    {
        match found {
            Ok(Some(payment_request)) => {
                let next = AwaitSentList { payment_hash: self.payment_hash, payment_request };
                Ok((ListPaymentsRequest::all(PaymentType::Send), next))
            },
            Ok(None) => Err(Error::Custom("Payment not found in database".to_owned())),
            Err(text) => Err(Error::Custom(text)),
        }
    }
}

impl AwaitSentList {
    /// The numbers of the payment, if there is one, can be added up.
    pub open spec fn takes(self, payments: Seq<Payment>) -> bool {
        first_payment(payments, self.payment_request@) matches Some(payment)
            ==> payment.total_fits()
    }

    /// Whether the numbers of the payment, if there is one, can be added up.
    pub fn can_take(&self, payments: &Vec<Payment>) -> (fits: bool)
        ensures
            fits == self.takes(payments@),
    {
        match find_payment(payments, &self.payment_request) {
            Some(payment) => payment.has_total(),
            None => true,
        }
    }

    /// Takes the SDK's reply.
    pub fn resume<E>(self, reply: Result<Vec<Payment>, E>) -> (result: Result<
        MakePaymentResponse,
        Error<E>,
    >)
        requires
            reply matches Ok(payments) ==> self.takes(payments@),
        ensures
            sent_reported(self, reply, result),
    {
        match reply {
            Ok(payments) => {
                let (status, spent): (MeltQuoteState, u64) = match find_payment(
                    &payments,
                    &self.payment_request,
                ) {
                    Some(payment) => {
                        let status = match payment.status {
                            PaymentStatus::Completed => MeltQuoteState::Paid,
                            PaymentStatus::Failed => MeltQuoteState::Unpaid,
                            PaymentStatus::Pending => MeltQuoteState::Pending,
                        };
                        (status, payment.total_sats())
                    },
                    None => (MeltQuoteState::Unpaid, 0),
                };
                Ok(
                    MakePaymentResponse {
                        payment_lookup_id: PaymentIdentifier::PaymentHash(self.payment_hash),
                        payment_proof: None,
                        status,
                        total_spent: Amount::new(spent, CurrencyUnit::Sat),
                    },
                )
            },
            Err(error) => Err(Error::Lightning(error)),
        }
    }
}

} // verus!
