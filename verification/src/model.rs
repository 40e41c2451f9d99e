//! The arithmetic of the fixed-point types, stated over mathematical integers.
//!
//! A raw value `r` stands for the real number `r / 2^15`. The functions here
//! say, in raw units, what each operation yields.

use vstd::prelude::*;

verus! {

/// The least raw value, standing for -1.
pub open spec fn raw_min() -> int {
    -32768
}

/// The greatest raw value, standing for 1 - 2^-15.
pub open spec fn raw_max() -> int {
    32767
}

/// The number of raw units in 1: 2^15.
pub open spec fn one() -> int {
    32768
}

/// Whether `x` is a raw value that 16 bits can hold.
pub open spec fn representable(x: int) -> bool {
    raw_min() <= x <= raw_max()
}

/// `x` brought into `[lo, hi]`: the nearest point of that interval.
pub open spec fn clamp(x: int, lo: int, hi: int) -> int {
    if x > hi {
        hi
    } else if x < lo {
        lo
    } else {
        x
    }
}

/// `x` saturated to the raw range.
pub open spec fn saturate(x: int) -> int {
    clamp(x, raw_min(), raw_max())
}

/// The product of two raw values, scaled back by 2^15 and rounded to the
/// nearest integer, a tie going up; not yet saturated.
pub open spec fn rounded_product(a: int, b: int) -> int {
    (a * b + 16384) / 32768
}

/// The raw value of the saturating, rounded product.
pub open spec fn mul_raw(a: int, b: int) -> int {
    saturate(rounded_product(a, b))
}

/// The raw value of the saturating sum.
pub open spec fn add_raw(a: int, b: int) -> int {
    saturate(a + b)
}

/// The raw value of the saturating difference.
pub open spec fn sub_raw(a: int, b: int) -> int {
    saturate(a - b)
}

/// The raw value of the saturating negation.
pub open spec fn neg_raw(a: int) -> int {
    saturate(-a)
}

/// The distance between two integers.
pub open spec fn distance(x: int, y: int) -> int {
    if x >= y {
        x - y
    } else {
        y - x
    }
}

/// The product of two integers, as a term that quantifiers can match on.
pub open spec fn product(a: int, b: int) -> int {
    a * b
}

/// Whether `x` is the product of two raw Q15 values.
pub open spec fn is_exact_product(x: int) -> bool {
    exists|a: int, b: int|
        representable(a) && representable(b) && x == #[trigger] product(a, b)
}

/// The product of two raw Q15 values lies between -(2^30 - 2^15) and 2^30.
pub proof fn lemma_product_bounds(a: int, b: int)
    requires
        representable(a),
        representable(b),
    ensures
        -1073709056 <= a * b <= 1073741824,
{
    assert(-1073709056 <= a * b <= 1073741824) by (nonlinear_arith)
        requires
            -32768 <= a <= 32767,
            -32768 <= b <= 32767,
    ;
}

/// An exact product of two raw Q15 values lies within the same bounds.
pub proof fn lemma_exact_product_bounds(x: int)
    requires
        is_exact_product(x),
    ensures
        -1073709056 <= x <= 1073741824,
{
    let (a, b) = choose|a: int, b: int|
        representable(a) && representable(b) && x == #[trigger] product(a, b);
    lemma_product_bounds(a, b);
}

} // verus!
