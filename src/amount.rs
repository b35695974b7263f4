//! Unsigned 512-bit amounts, held as eight little-endian 64-bit words.

use vstd::prelude::*;
use vstd::arithmetic::power2::{lemma2_to64, lemma_pow2_adds, lemma_pow2_pos, pow2};
use crate::text::decimal;

verus! {

/// The value of little-endian 64-bit words.
pub open spec fn limbs_value(s: Seq<u64>) -> nat
    decreases s.len(),
{
    if s.len() == 0 {
        0
    } else {
        s[0] as nat + 0x1_0000_0000_0000_0000 * limbs_value(s.drop_first())
    }
}

/// One more than the largest amount.
pub open spec fn amount_bound() -> nat {
    pow2(512)
}

/// Words of 64 bits hold a value below two to the power of 64 per word.
pub proof fn lemma_limbs_value_bound(s: Seq<u64>)
    ensures
        limbs_value(s) < pow2(64 * s.len()),
    decreases s.len(),
{
    if s.len() > 0 {
        let rest = s.drop_first();
        lemma_limbs_value_bound(rest);
        lemma2_to64();
        lemma_pow2_adds(64, 64 * rest.len());
        assert(64 * s.len() == 64 + 64 * rest.len());
        let b = 0x1_0000_0000_0000_0000nat;
        let p = pow2(64 * rest.len());
        assert(limbs_value(rest) + 1 <= p);
        assert(b * (limbs_value(rest) + 1) <= b * p) by (nonlinear_arith)
            requires
                limbs_value(rest) + 1 <= p,
        ;
    } else {
        lemma_pow2_pos(0);
    }
}

/// Relies on `U512::checked_add` of casper-types: `None` exactly when the
/// sum does not fit in 512 bits, else the sum.
#[verifier::external_body]
fn u512_checked_add(a: [u64; 8], b: [u64; 8]) -> (r: Option<[u64; 8]>)
    ensures
        match r {
            Some(c) => limbs_value(c@) == limbs_value(a@) + limbs_value(b@),
            None => limbs_value(a@) + limbs_value(b@) >= amount_bound(),
        },
{
    casper_types::U512(a).checked_add(casper_types::U512(b)).map(|c| c.0)
}

/// Relies on the `Ord` of casper-types' `U512`, which orders by value.
#[verifier::external_body]
fn u512_gt(a: [u64; 8], b: [u64; 8]) -> (r: bool)
    ensures
        r == (limbs_value(a@) > limbs_value(b@)),
{
    casper_types::U512(a) > casper_types::U512(b)
}

/// Relies on the `Display` of casper-types' `U512`: its decimal digits.
#[verifier::external_body]
fn u512_text(a: [u64; 8]) -> (r: String)
    ensures
        r@ == decimal(limbs_value(a@)),
{
    format!("{}", casper_types::U512(a))
}

/// An unsigned 512-bit amount of value.
#[derive(Clone, Copy, Debug)]
pub struct Amount {
    /// Little-endian 64-bit words.
    pub limbs: [u64; 8],
}

impl Amount {
    /// The amount as a number.
    pub open spec fn value(&self) -> nat {
        limbs_value(self.limbs@)
    }

    pub proof fn lemma_value_bound(&self)
        ensures
            self.value() < amount_bound(),
    {
        lemma_limbs_value_bound(self.limbs@);
    }

    pub fn zero() -> (r: Amount)
        ensures
            r.value() == 0,
    {
        Amount::from_u64(0)
    }

    pub fn from_u64(v: u64) -> (r: Amount)
        ensures
            r.value() == v,
    {
        let r = Amount { limbs: [v, 0, 0, 0, 0, 0, 0, 0] };
        proof {
            let s = r.limbs@;
            assert(s.drop_first().drop_first().drop_first().drop_first().drop_first().drop_first().drop_first().drop_first().len() == 0);
            reveal_with_fuel(limbs_value, 9);
        }
        r
    }

    pub fn from_limbs(limbs: [u64; 8]) -> (r: Amount)
        ensures
            r.limbs == limbs,
            r.value() == limbs_value(limbs@),
    {
        Amount { limbs }
    }

    /// The sum, or `None` when it does not fit in 512 bits.
    pub fn checked_add(&self, other: &Amount) -> (r: Option<Amount>)
        ensures
            match r {
                Some(c) => c.value() == self.value() + other.value(),
                None => self.value() + other.value() >= amount_bound(),
            },
    {
        match u512_checked_add(self.limbs, other.limbs) {
            Some(c) => Some(Amount { limbs: c }),
            None => None,
        }
    }

    pub fn gt(&self, other: &Amount) -> (r: bool)
        ensures
            r == (self.value() > other.value()),
    {
        u512_gt(self.limbs, other.limbs)
    }

    /// Decimal digits of the amount.
    pub fn to_decimal(&self) -> (r: String)
        ensures
            r@ == decimal(self.value()),
    {
        u512_text(self.limbs)
    }
}

} // verus!
