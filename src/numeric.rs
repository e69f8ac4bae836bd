//! Arbitrary-precision decimals as the store hands them out, and their
//! conversion to block numbers.
use bigdecimal::BigDecimal;
use num_bigint::BigInt;
use bigdecimal::ToPrimitive;
use vstd::arithmetic::power::{lemma_pow_positive, pow};
use vstd::prelude::*;

verus! {

/// A decimal number `unscaled / 10^scale`, where `unscaled` is written as
/// two's-complement bytes, least significant byte first.
#[derive(Debug)]
pub struct Numeric {
    pub unscaled: Vec<u8>,
    pub scale: u16,
}

/// The value of little-endian bytes read as an unsigned number.
pub open spec fn unsigned_le(b: Seq<u8>) -> nat
    decreases b.len(),
{
    if b.len() == 0 {
        0
    } else {
        b[0] as nat + 256 * unsigned_le(b.drop_first())
    }
}

/// The value of little-endian bytes read as a two's-complement number.
pub open spec fn signed_le(b: Seq<u8>) -> int {
    if b.len() > 0 && b.last() >= 128 {
        unsigned_le(b) - pow(256, b.len())
    } else {
        unsigned_le(b) as int
    }
}

impl Numeric {
    /// The unscaled integer.
    pub open spec fn unscaled_value(&self) -> int {
        signed_le(self.unscaled@)
    }

    /// The power of ten that the unscaled integer is divided by.
    pub open spec fn denominator(&self) -> int {
        pow(10, self.scale as nat)
    }

    /// The value has no fractional part.
    pub open spec fn is_integral(&self) -> bool {
        self.unscaled_value() % self.denominator() == 0
    }

    /// The value lies in `[lo, hi)`, comparing exactly.
    pub open spec fn in_range(&self, lo: int, hi: int) -> bool {
        lo * self.denominator() <= self.unscaled_value() < hi * self.denominator()
    }

    /// The value as an unsigned 64-bit integer: negative values have none,
    /// the fractional part of others is dropped, and what remains must fit.
    pub open spec fn to_u64_spec(&self) -> Option<u64> {
        let v = self.unscaled_value();
        if v < 0 {
            None
        } else if v / self.denominator() <= u64::MAX {
            Some((v / self.denominator()) as u64)
        } else {
            None
        }
    }
}

/// A number outside `[0, 2^64)` is not a `u64`; an integral number inside
/// it is, and converting back gives the same value.
pub proof fn lemma_to_u64_round_trip(n: Numeric)
    ensures
        !n.in_range(0, u64::MAX + 1) ==> n.to_u64_spec() is None,
        n.in_range(0, u64::MAX + 1) && n.is_integral() ==> (n.to_u64_spec() matches Some(k)
            && k * n.denominator() == n.unscaled_value()),
{
    let v = n.unscaled_value();
    let d = n.denominator();
    lemma_pow_positive(10, n.scale as nat);
    let m = u64::MAX + 1;
    if v >= 0 {
        if v >= m * d {
            assert(v / d >= m) by (nonlinear_arith)
                requires
                    v >= m * d,
                    d > 0,
            ;
        } else {
            assert(v / d < m) by (nonlinear_arith)
                requires
                    v < m * d,
                    d > 0,
                    v >= 0,
            ;
            if v % d == 0 {
                assert((v / d) * d == v) by (nonlinear_arith)
                    requires
                        v % d == 0,
                        d > 0,
                ;
            }
        }
    }
}

/// Relies on `ToPrimitive::to_u64` of `bigdecimal::BigDecimal`: for a value of
/// sign `Plus` it rescales to zero digits (truncating division of the
/// unscaled integer) and converts when the result fits, for zero it gives
/// `Some(0)`, and for a negative value `None`. The value is built with
/// `BigInt::from_signed_bytes_le` and `BigDecimal::new`.
#[verifier::external_body]
pub(crate) fn decimal_to_u64(n: &Numeric) -> (r: Option<u64>)
    ensures
        r == n.to_u64_spec(),
{
    BigDecimal::new(BigInt::from_signed_bytes_le(&n.unscaled), n.scale as i64).to_u64()
}

/// Relies on `BigDecimal::is_integer` (bigdecimal 0.1): with a positive
/// scale it tests that the remainder of the unscaled integer by
/// `10^scale` is zero, and with scale zero it gives `true`. The value is
/// built with `BigInt::from_signed_bytes_le` and `BigDecimal::new`.
#[verifier::external_body]
pub(crate) fn decimal_is_integer(n: &Numeric) -> (r: bool)
    ensures
        r == n.is_integral(),
{
    BigDecimal::new(BigInt::from_signed_bytes_le(&n.unscaled), n.scale as i64).is_integer()
}

} // verus!
