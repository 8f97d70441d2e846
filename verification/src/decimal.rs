//! Exact decimal quantities and prices, kept as integer fractions.
//!
//! Prices and share quantities are rational numbers (a limit price of
//! 13.54 is 1354/100). A value is kept exactly as given, numerator over
//! denominator, and the one arithmetic operation the ledger needs —
//! multiplying a fill price by a filled quantity to get a cost basis —
//! is exact fraction multiplication.

use vstd::prelude::*;

verus! {

/// Largest numerator and denominator allowed in a well-formed operand,
/// chosen so that the product of two well-formed operands always fits
/// in the `i128` fields of the result.
pub const DECIMAL_BOUND: i128 = 0x7fff_ffff_ffff_ffff;

/// Smallest numerator allowed in a well-formed operand.
pub const DECIMAL_LOWER_BOUND: i128 = -0x8000_0000_0000_0000;

/// An exact fraction: the value `n / d`.
#[derive(Clone, Copy, Debug, PartialEq, Eq, Structural)]
pub struct Decimal {
    /// Numerator; carries the sign.
    pub n: i128,
    /// Denominator; positive in every well-formed value.
    pub d: i128,
}

/// A well-formed operand: positive denominator, and both components
/// small enough that a product of two such values cannot overflow.
pub open spec fn decimal_wf(x: Decimal) -> bool {
    &&& 1 <= x.d <= DECIMAL_BOUND
    &&& DECIMAL_LOWER_BOUND <= x.n <= DECIMAL_BOUND
}

/// The exact product of two fractions: numerators and denominators
/// multiply componentwise; nothing is reduced.
pub open spec fn spec_mul(a: Decimal, b: Decimal) -> Decimal {
    Decimal { n: (a.n * b.n) as i128, d: (a.d * b.d) as i128 }
}

impl Decimal {
    /// The whole number `n`.
    pub fn from_int(n: i64) -> (r: Decimal)
        ensures
            r.n == n as int,
            r.d == 1,
            decimal_wf(r),
    {
        Decimal { n: n as i128, d: 1 }
    }

    /// The fraction `n / d`.
    pub fn new(n: i64, d: i64) -> (r: Decimal)
        requires
            1 <= d,
        ensures
            r.n == n as int,
            r.d == d as int,
            decimal_wf(r),
    {
        Decimal { n: n as i128, d: d as i128 }
    }

    /// Exact product of two well-formed fractions.
    pub fn times(self, other: Decimal) -> (r: Decimal)
        requires
            decimal_wf(self),
            decimal_wf(other),
        ensures
            r == spec_mul(self, other),
            r.n == self.n * other.n,
            r.d == self.d * other.d,
    {
        proof {
            assert(-(DECIMAL_LOWER_BOUND * DECIMAL_LOWER_BOUND) <= self.n * other.n
                <= DECIMAL_LOWER_BOUND * DECIMAL_LOWER_BOUND) by (nonlinear_arith)
                requires
                    DECIMAL_LOWER_BOUND <= self.n <= DECIMAL_BOUND,
                    DECIMAL_LOWER_BOUND <= other.n <= DECIMAL_BOUND,
            ;
            assert(1 <= self.d * other.d <= DECIMAL_BOUND * DECIMAL_BOUND)
                by (nonlinear_arith)
                requires
                    1 <= self.d <= DECIMAL_BOUND,
                    1 <= other.d <= DECIMAL_BOUND,
            ;
        }
        Decimal { n: self.n * other.n, d: self.d * other.d }
    }
}

} // verus!
