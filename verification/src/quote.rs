//! Quotes: which invoice a payment hash stands for.

use vstd::prelude::*;

verus! {

/// A record of the quote database: the invoice that a payment hash was found in.
#[derive(Debug, PartialEq, Eq)]
pub struct Quote {
    pub payment_hash: [u8; 32],
    pub payment_request: String,
}

impl Quote {
    /// A table of the quote database after the quote was inserted.
    pub open spec fn inserted_into(self, table: Map<Seq<u8>, Seq<char>>) -> Map<
        Seq<u8>,
        Seq<char>,
    > {
        table.insert(self.payment_hash@, self.payment_request@)
    }
}

/// What looking `payment_hash` up in a table of the quote database finds.
pub open spec fn finds(
    table: Map<Seq<u8>, Seq<char>>,
    payment_hash: Seq<u8>,
    found: Option<String>,
) -> bool {
    match found {
        Some(payment_request) => table.contains_key(payment_hash) && table[payment_hash]
            == payment_request@,
        None => !table.contains_key(payment_hash),
    }
}

} // verus!
