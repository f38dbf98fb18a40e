//! Amounts of money, and the arithmetic on the numbers that the SDK reports.

use vstd::prelude::*;

verus! {

/// The unit that an amount is counted in.
#[derive(Debug, PartialEq, Eq)]
pub enum CurrencyUnit {
    Sat,
    Msat,
    Usd,
    Eur,
    Auth,
    Custom(String),
}

impl Clone for CurrencyUnit {
    fn clone(&self) -> (unit: Self)
        ensures
            unit == *self,
    {
        match self {
            CurrencyUnit::Sat => CurrencyUnit::Sat,
            CurrencyUnit::Msat => CurrencyUnit::Msat,
            CurrencyUnit::Usd => CurrencyUnit::Usd,
            CurrencyUnit::Eur => CurrencyUnit::Eur,
            CurrencyUnit::Auth => CurrencyUnit::Auth,
            CurrencyUnit::Custom(name) => CurrencyUnit::Custom(name.clone()),
        }
    }
}

/// A number of units.
#[derive(Debug, PartialEq, Eq)]
pub struct Amount {
    pub value: u64,
    pub unit: CurrencyUnit,
}

impl Amount {
    pub fn new(value: u64, unit: CurrencyUnit) -> (amount: Self)
        ensures
            amount == (Amount { value, unit }),
    {
        Amount { value, unit }
    }
}

/// What is left of a number in 64 bits.
pub open spec fn low_64_bits(n: int) -> int {
    n % 0x1_0000_0000_0000_0000
}

/// What is left of a number in 32 bits.
pub open spec fn low_32_bits(n: int) -> int {
    n % 0x1_0000_0000
}

/// Keeps the low 64 bits of `n`.
pub fn truncate_to_u64(n: u128) -> (low: u64)
    ensures
        low == low_64_bits(n as int),
{
    assert((n as u64) == n % 0x1_0000_0000_0000_0000u128) by (bit_vector);
    #[verifier::truncate]
    (n as u64)
}

/// Keeps the low 32 bits of `n`.
pub fn truncate_to_u32(n: u64) -> (low: u32)
    ensures
        low == low_32_bits(n as int),
{
    assert((n as u32) == n % 0x1_0000_0000u64) by (bit_vector);
    #[verifier::truncate]
    (n as u32)
}

} // verus!
