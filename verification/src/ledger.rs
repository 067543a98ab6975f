//! Entries for a ledger of double-entry bookkeeping.

use crate::date::DateString;
use vstd::prelude::*;

verus! {

/// Declares `rust_decimal::Error`, of which nothing is known but that it is an error.
#[verifier::external_type_specification]
#[verifier::external_body]
pub struct ExDecimalError(rust_decimal::Error);

/// The decimal number that a text writes, as `rust_decimal` reads it when no rounding
/// is allowed: its digits as a whole number, with its sign, and the count of those
/// digits that stand after the point. None where the text writes no number, or one
/// with more digits than a decimal holds.
pub uninterp spec fn exact_decimal(s: Seq<char>) -> Option<(i128, u32)>;

/// Reads a decimal number.
///
/// Calls `rust_decimal::Decimal::from_str_exact` and takes the number apart with
/// `mantissa` and `scale`. The result is only named, by [`exact_decimal`].
#[verifier::external_body]
fn decimal_from_str_exact(s: &str) -> (r: Result<(i128, u32), rust_decimal::Error>)
    ensures
        match r {
            Ok(parts) => exact_decimal(s@) == Some(parts),
            Err(_) => exact_decimal(s@) is None,
        },
{
    let number = rust_decimal::Decimal::from_str_exact(s)?;
    Ok((number.mantissa(), number.scale()))
}

/// The kind of an account.
#[derive(Clone, Copy, Debug, PartialEq, Eq, Structural)]
pub enum AccountType {
    Assets,
    Income,
}

/// A decimal number: `mantissa` divided by ten to the power of `scale`.
#[derive(Clone, Copy, Debug, PartialEq, Eq, Structural)]
pub struct Decimal {
    pub mantissa: i128,
    pub scale: u32,
}

/// An amount of money in some currency.
#[derive(Clone, Debug)]
pub struct Amount {
    pub num: Decimal,
    pub currency: String,
}

/// One side of a transaction: an amount booked on an account.
#[derive(Clone, Debug)]
pub struct Posting {
    pub account_type: AccountType,
    pub account: String,
    pub units: Amount,
}

/// A transaction: what happened, on which day, and the postings that record it.
#[derive(Clone, Debug)]
pub struct Transaction {
    pub date: DateString,
    pub narration: String,
    pub postings: Vec<Posting>,
}

/// Why no ledger entry could be made.
#[derive(Clone, Copy, Debug, PartialEq, Eq, Structural)]
pub enum LedgerError {
    /// The amount is not a decimal number that can be booked exactly.
    Amount,
}

/// The decimal number that a text writes: see [`exact_decimal`].
pub open spec fn decimal_of(s: Seq<char>) -> Option<Decimal> {
    match exact_decimal(s) {
        Some((mantissa, scale)) => Some(Decimal { mantissa, scale }),
        None => None,
    }
}

impl Decimal {
    /// Reads the decimal number that `s` writes, where it writes one exactly.
    pub fn from_str_exact(s: &str) -> (r: Result<Decimal, LedgerError>)
        ensures
            match r {
                Ok(number) => decimal_of(s@) == Some(number),
                Err(LedgerError::Amount) => decimal_of(s@) is None,
            },
    {
        match decimal_from_str_exact(s) {
            Ok((mantissa, scale)) => Ok(Decimal { mantissa, scale }),
            Err(_) => Err(LedgerError::Amount),
        }
    }
}

/// Whether a transaction has two postings of the same amount in the same currency.
pub open spec fn is_balanced(transaction: Transaction) -> bool {
    &&& transaction.postings@.len() == 2
    &&& transaction.postings@[0].units.num == transaction.postings@[1].units.num
    &&& transaction.postings@[0].units.currency@ == transaction.postings@[1].units.currency@
}

} // verus!
