//! Token amounts: a fixed-point number with 18 decimal places, held as the
//! 192-bit two's-complement count of attos (10^-18 units) that Scrypto's
//! `Decimal` is made of. Arithmetic is delegated to Scrypto's `Decimal`.
use vstd::prelude::*;

verus! {

/// 2^64
pub open spec fn two64() -> int {
    0x1_0000_0000_0000_0000int
}

/// 2^128
pub open spec fn two128() -> int {
    0x1_0000_0000_0000_0000_0000_0000_0000_0000int
}

/// 2^191: the attos of a `Decimal` lie in `[-2^191, 2^191)`.
pub open spec fn two191() -> int {
    0x8000_0000_0000_0000_0000_0000_0000_0000_0000_0000_0000_0000int
}

/// 2^192
pub open spec fn two192() -> int {
    2 * two191()
}

/// The number of attos in one whole token.
pub open spec fn atto_scale() -> int {
    1_000_000_000_000_000_000int
}

/// Whether a count of attos can be held by a `Decimal`.
pub open spec fn in_decimal_range(attos: int) -> bool {
    -two191() <= attos < two191()
}

/// A signed amount with 18 decimal places. The three words are the
/// little-endian 64-bit digits of the two's-complement count of attos.
#[derive(Clone, Copy, Debug, PartialEq, Eq, Structural)]
pub struct Decimal {
    pub lo: u64,
    pub mid: u64,
    pub hi: u64,
}

impl Decimal {
    /// The count of attos that this value stands for.
    pub open spec fn attos(self) -> int {
        let unsigned = self.lo + self.mid * two64() + self.hi * two128();
        if self.hi >= 0x8000_0000_0000_0000u64 {
            unsigned - two192()
        } else {
            unsigned
        }
    }

    /// Zero.
    pub fn zero() -> (r: Decimal)
        ensures
            r.attos() == 0,
    {
        Decimal { lo: 0, mid: 0, hi: 0 }
    }

    /// The amount of `n` whole tokens.
    pub fn from_u64(n: u64) -> (r: Decimal)
        ensures
            r.attos() == n * atto_scale(),
    {
        decimal_from_u64(n)
    }
}

/// Every value of the three words stands for a count of attos in range.
pub proof fn lemma_attos_in_range(d: Decimal)
    ensures
        in_decimal_range(d.attos()),
{
}

/// `Decimal::from(u64)` of Scrypto: `n` whole tokens, that is `n * 10^18`
/// attos, which always fits.
#[verifier::external_body]
pub(crate) fn decimal_from_u64(n: u64) -> (r: Decimal)
    ensures
        r.attos() == n * atto_scale(),
{
    let d = scrypto::math::Decimal::from(n).attos().to_digits();
    Decimal { lo: d[0], mid: d[1], hi: d[2] }
}

/// `Decimal::checked_add` of Scrypto: the sum of the attos, or `None` where
/// the sum does not fit in 192 bits.
#[verifier::external_body]
pub(crate) fn decimal_checked_add(a: Decimal, b: Decimal) -> (r: Option<Decimal>)
    ensures
        r is Some <==> in_decimal_range(a.attos() + b.attos()),
        r matches Some(c) ==> c.attos() == a.attos() + b.attos(),
{
    let x = scrypto::math::Decimal::from_attos(scrypto::math::I192::from_digits([a.lo, a.mid, a.hi]));
    let y = scrypto::math::Decimal::from_attos(scrypto::math::I192::from_digits([b.lo, b.mid, b.hi]));
    match scrypto::math::CheckedAdd::checked_add(x, y) {
        Some(c) => {
            let d = c.attos().to_digits();
            Some(Decimal { lo: d[0], mid: d[1], hi: d[2] })
        },
        None => None,
    }
}

/// `Decimal::checked_sub` of Scrypto: the difference of the attos, or `None`
/// where it does not fit in 192 bits.
#[verifier::external_body]
pub(crate) fn decimal_checked_sub(a: Decimal, b: Decimal) -> (r: Option<Decimal>)
    ensures
        r is Some <==> in_decimal_range(a.attos() - b.attos()),
        r matches Some(c) ==> c.attos() == a.attos() - b.attos(),
{
    let x = scrypto::math::Decimal::from_attos(scrypto::math::I192::from_digits([a.lo, a.mid, a.hi]));
    let y = scrypto::math::Decimal::from_attos(scrypto::math::I192::from_digits([b.lo, b.mid, b.hi]));
    match scrypto::math::CheckedSub::checked_sub(x, y) {
        Some(c) => {
            let d = c.attos().to_digits();
            Some(Decimal { lo: d[0], mid: d[1], hi: d[2] })
        },
        None => None,
    }
}

/// The `<` of Scrypto's `Decimal`: a signed comparison of the attos.
#[verifier::external_body]
pub(crate) fn decimal_lt(a: Decimal, b: Decimal) -> (r: bool)
    ensures
        r == (a.attos() < b.attos()),
{
    let x = scrypto::math::Decimal::from_attos(scrypto::math::I192::from_digits([a.lo, a.mid, a.hi]));
    let y = scrypto::math::Decimal::from_attos(scrypto::math::I192::from_digits([b.lo, b.mid, b.hi]));
    x < y
}

} // verus!
