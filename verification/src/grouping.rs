//! Numbers written with a comma between groups of three digits.

use vstd::prelude::*;
use num_format::{Locale, ToFormattedString};
use crate::text::{decimal, padded};

verus! {

/// Decimal notation of `n` with a comma before every group of three
/// digits counted from the right.
pub open spec fn grouped(n: nat) -> Seq<char>
    decreases n,
{
    if n < 1000 {
        decimal(n)
    } else {
        grouped(n / 1000) + seq![','] + padded(n % 1000, 3)
    }
}

/// `ToFormattedString::to_formatted_string` of num-format on a `u128`
/// with `Locale::en`, whose separator is a comma and whose grouping is by
/// three: the digits of `n`, a comma set before each full group of three
/// from the right.
#[verifier::external_body]
pub(crate) fn group_thousands(n: u128) -> (s: String)
    ensures
        s@ == grouped(n as nat),
{
    n.to_formatted_string(&Locale::en)
}

} // verus!
