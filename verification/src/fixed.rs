//! The two value types and their operations.

use crate::model::{
    add_raw, is_exact_product, lemma_exact_product_bounds, lemma_product_bounds, mul_raw,
    neg_raw, product, representable, saturate, sub_raw,
};
use vstd::prelude::*;
use vstd::std_specs::ops::{AddSpecImpl, MulSpecImpl, NegSpecImpl, SubSpecImpl};

verus! {

/// A signed fixed-point number with 15 fractional bits.
#[derive(Copy, Clone, Debug, PartialEq, Eq, Structural)]
pub struct Q15(i16);

/// The exact product of two [`Q15`] values, with 30 fractional bits.
#[derive(Copy, Clone, Debug, PartialEq, Eq, Structural)]
pub struct Q31(i32);

impl View for Q15 {
    type V = int;

    /// The raw value: the number that `self` stands for, times 2^15.
    closed spec fn view(&self) -> int {
        self.0 as int
    }
}

impl Q15 {
    /// The raw value of one unit in the last place.
    pub const ULP_RAW: i16 = 1;

    /// The rounding constant of the product: half a unit in the last place
    /// of the result, in units of the exact product.
    const ROUND: i32 = 0x4000;

    /// The value with the raw value `x`, which 16 bits must hold.
    pub closed spec fn of_raw(x: int) -> Q15 {
        Q15(x as i16)
    }

    /// `of_raw` and the view are inverse to each other.
    pub proof fn lemma_of_raw(x: int)
        requires
            representable(x),
        ensures
            Q15::of_raw(x)@ == x,
    {
    }

    /// The smallest positive value, one unit in the last place: 2^-15.
    pub fn ulp() -> (r: Q15)
        ensures
            r@ == 1,
    {
        Q15(Q15::ULP_RAW)
    }

    /// The value whose raw representation is `raw`.
    pub fn from_raw(raw: i16) -> (r: Q15)
        ensures
            r@ == raw,
    {
        Q15(raw)
    }

    /// The raw 16-bit representation.
    pub fn raw(self) -> (r: i16)
        ensures
            r == self@,
    {
        self.0
    }

    /// The raw value of every Q15 lies in the 16-bit range.
    pub proof fn lemma_representable(self)
        ensures
            representable(self@),
    {
    }

    /// Two values with the same raw value are the same value.
    pub proof fn lemma_view_injective(self, other: Q15)
        ensures
            self@ == other@ <==> self == other,
    {
    }

    /// The exact product of `self` and `rhs`: nothing is rounded and nothing
    /// can overflow, since each factor is at most 2^15 in magnitude.
    pub fn exact_mul(self, rhs: Q15) -> (r: Q31)
        ensures
            r@ == self@ * rhs@,
            is_exact_product(r@),
    {
        let a: i32 = i32::from(self.0);
        let b: i32 = i32::from(rhs.0);
        proof {
            lemma_product_bounds(a as int, b as int);
            assert(a * b == product(a as int, b as int));
        }
        let c: i32 = a * b;
        Q31(c)
    }

    /// The Q15 nearest to the integer `x`: `x` itself where 16 bits hold it,
    /// else the end of the range on the side of `x`.
    pub fn sat(x: i32) -> (r: Q15)
        ensures
            r@ == saturate(x as int),
    {
        if x > 0x7FFF {
            Q15(32767)
        } else if x < -0x8000 {
            Q15(-32768)
        } else {
            Q15(x as i16)
        }
    }
}

impl MulSpecImpl for Q15 {
    open spec fn obeys_mul_spec() -> bool {
        true
    }

    open spec fn mul_req(self, rhs: Q15) -> bool {
        true
    }

    open spec fn mul_spec(self, rhs: Q15) -> Q15 {
        Q15::of_raw(mul_raw(self@, rhs@))
    }
}

impl core::ops::Mul for Q15 {
    type Output = Q15;

    /// The product, rounded to the nearest Q15 (a tie going up) and
    /// saturated: -1 times -1 gives the greatest value, not a wrapped one.
    fn mul(self, rhs: Q15) -> (r: Q15)
        ensures
            r@ == mul_raw(self@, rhs@),
    {
        let a: i32 = i32::from(self.0);
        let b: i32 = i32::from(rhs.0);
        proof {
            lemma_product_bounds(a as int, b as int);
        }
        let c: i32 = a * b;
        let c: i32 = c + Q15::ROUND;
        let d: i32 = c >> 15;
        proof {
            assert(c >> 15 == c / 32768) by (bit_vector);
        }
        Q15::sat(d)
    }
}

impl AddSpecImpl for Q15 {
    open spec fn obeys_add_spec() -> bool {
        true
    }

    open spec fn add_req(self, rhs: Q15) -> bool {
        true
    }

    open spec fn add_spec(self, rhs: Q15) -> Q15 {
        Q15::of_raw(add_raw(self@, rhs@))
    }
}

impl core::ops::Add for Q15 {
    type Output = Q15;

    /// The sum, saturated at both ends of the range.
    fn add(self, rhs: Q15) -> (r: Q15)
        ensures
            r@ == add_raw(self@, rhs@),
    {
        Q15::sat(i32::from(self.0) + i32::from(rhs.0))
    }
}

impl SubSpecImpl for Q15 {
    open spec fn obeys_sub_spec() -> bool {
        true
    }

    open spec fn sub_req(self, rhs: Q15) -> bool {
        true
    }

    open spec fn sub_spec(self, rhs: Q15) -> Q15 {
        Q15::of_raw(sub_raw(self@, rhs@))
    }
}

impl core::ops::Sub for Q15 {
    type Output = Q15;

    /// The difference, saturated at both ends of the range.
    fn sub(self, rhs: Q15) -> (r: Q15)
        ensures
            r@ == sub_raw(self@, rhs@),
    {
        Q15::sat(i32::from(self.0) - i32::from(rhs.0))
    }
}

impl NegSpecImpl for Q15 {
    open spec fn obeys_neg_spec() -> bool {
        true
    }

    open spec fn neg_req(self) -> bool {
        true
    }

    open spec fn neg_spec(self) -> Q15 {
        Q15::of_raw(neg_raw(self@))
    }
}

impl core::ops::Neg for Q15 {
    type Output = Q15;

    /// The negation, saturated: that of the least value is the greatest
    /// value, since 1 itself is out of range.
    fn neg(self) -> (r: Q15)
        ensures
            r@ == neg_raw(self@),
    {
        Q15(0) - self
    }
}

impl View for Q31 {
    type V = int;

    /// The raw value: the number that `self` stands for, times 2^30.
    closed spec fn view(&self) -> int {
        self.0 as int
    }
}

impl Q31 {
    #[verifier::type_invariant]
    spec fn well_formed(self) -> bool {
        is_exact_product(self.0 as int)
    }

    /// The raw 32-bit value. It is the product of two raw Q15 values, and so
    /// lies between -(2^30 - 2^15) and 2^30.
    pub fn raw(self) -> (r: i32)
        ensures
            r == self@,
            is_exact_product(r as int),
            -1073709056 <= r <= 1073741824,
    {
        proof {
            use_type_invariant(self);
            lemma_exact_product_bounds(self.0 as int);
        }
        self.0
    }
}

} // verus!
