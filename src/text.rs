//! Decimal and hexadecimal renderings used by event records.

use vstd::prelude::*;

verus! {

/// The character for a digit below sixteen, in lower case.
pub open spec fn digit_char(d: nat) -> char {
    seq!['0', '1', '2', '3', '4', '5', '6', '7', '8', '9', 'a', 'b', 'c', 'd', 'e', 'f'][d as int]
}

/// Decimal digits of `n`, most significant first, without leading zeros.
pub open spec fn decimal(n: nat) -> Seq<char>
    decreases n,
{
    if n < 10 {
        seq![digit_char(n)]
    } else {
        decimal(n / 10).push(digit_char(n % 10))
    }
}

/// Two lower-case hexadecimal digits per byte, high nibble first.
pub open spec fn hex_lower(b: Seq<u8>) -> Seq<char>
    decreases b.len(),
{
    if b.len() == 0 {
        Seq::empty()
    } else {
        seq![digit_char(b[0] as nat / 16), digit_char(b[0] as nat % 16)] + hex_lower(b.drop_first())
    }
}

/// Relies on the standard `Display` of `u64`: its decimal digits.
#[verifier::external_body]
pub(crate) fn u64_text(x: u64) -> (r: String)
    ensures
        r@ == decimal(x as nat),
{
    format!("{}", x)
}

} // verus!
