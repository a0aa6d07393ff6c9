use vstd::prelude::*;

verus! {

/// Bounding a product by the product of the bounds; stated once because
/// the oscillator multiplies ratio components in many places.
pub proof fn lemma_mul_le(a: int, b: int, c: int, d: int)
    requires
        0 <= a <= c,
        0 <= b <= d,
    ensures
        a * b <= c * d,
{
    assert(a * b <= c * d) by (nonlinear_arith)
        requires
            0 <= a <= c,
            0 <= b <= d,
    ;
}

/// A strictly positive rational number, kept as a numerator over a
/// denominator. Values need not be in lowest terms: `2/4` and `1/2` denote
/// the same rational, and [`Ratio::same_value`] compares by value.
///
/// Sampling rates and frequencies are carried as `Ratio`s so that every
/// phase computation of the oscillator is exact integer arithmetic.
#[derive(Clone, Copy, Debug, PartialEq, Eq, Structural)]
pub struct Ratio {
    pub num: u64,
    pub den: u64,
}

impl Ratio {
    /// Both components are positive and small enough that a product of any
    /// two well-formed components fits comfortably in a `u64`.
    pub open spec fn wf(self) -> bool {
        &&& 1 <= self.num <= 0x8000_0000
        &&& 1 <= self.den <= 0x8000_0000
    }

    /// `self` and `other` denote the same rational number
    /// (cross-multiplication; denominators are positive).
    pub open spec fn same_value(self, other: Ratio) -> bool {
        self.num * other.den == other.num * self.den
    }

    pub fn new(num: u64, den: u64) -> (r: Ratio)
        requires
            1 <= num <= 0x8000_0000,
            1 <= den <= 0x8000_0000,
        ensures
            r.num == num,
            r.den == den,
            r.wf(),
    {
        Ratio { num, den }
    }

    /// Whole number `n`, as the ratio `n/1`.
    pub fn whole(n: u64) -> (r: Ratio)
        requires
            1 <= n <= 0x8000_0000,
        ensures
            r.num == n,
            r.den == 1,
            r.wf(),
    {
        Ratio { num: n, den: 1 }
    }

    /// Value comparison: `true` exactly when the two ratios denote the same
    /// rational number, regardless of representation.
    pub fn eq_value(&self, other: &Ratio) -> (b: bool)
        requires
            self.wf(),
            other.wf(),
        ensures
            b == self.same_value(*other),
    {
        proof {
            lemma_mul_le(self.num as int, other.den as int, 0x8000_0000, 0x8000_0000);
            lemma_mul_le(other.num as int, self.den as int, 0x8000_0000, 0x8000_0000);
        }
        self.num * other.den == other.num * self.den
    }
}

} // verus!
