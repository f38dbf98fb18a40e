//! BOLT11 invoices: the payment hash that an invoice commits to.

use cdk_common::lightning_invoice::ParseOrSemanticError;
use cdk_common::Bolt11Invoice;
use std::str::FromStr;
use vstd::prelude::*;

verus! {

/// The reason why a text is not a BOLT11 invoice, as the invoice reader gives it.
#[verifier::external_type_specification]
#[verifier::external_body]
pub struct ExParseOrSemanticError(ParseOrSemanticError);

/// What reading an invoice gave: the bytes of its payment hash, or the reason why it is none.
pub type ReadHash = Result<[u8; 32], ParseOrSemanticError>;

/// What reading a text as a BOLT11 invoice gives: the payment hash of the invoice, or the
/// reason why the text is none.
pub uninterp spec fn invoice_payment_hash(text: Seq<char>) -> Result<
    Seq<u8>,
    ParseOrSemanticError,
>;

/// What reading an invoice gave, with the hash as a sequence.
pub open spec fn read_view(read: ReadHash) -> Result<Seq<u8>, ParseOrSemanticError> {
    match read {
        Ok(hash) => Ok(hash@),
        Err(reason) => Err(reason),
    }
}

/// Reads `text` with `Bolt11Invoice::from_str` and takes the bytes of the invoice's
/// `payment_hash`. Both depend on the text alone: the outcome, error included, is what
/// [`invoice_payment_hash`] names.
#[verifier::external_body]
pub(crate) fn read_payment_hash(text: &str) -> (read: ReadHash)
    ensures
        read_view(read) == invoice_payment_hash(text@),
{
    let invoice = Bolt11Invoice::from_str(text)?;
    Ok(cdk_common::bitcoin::hashes::Hash::to_byte_array(*invoice.payment_hash()))
}

} // verus!
