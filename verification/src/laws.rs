//! What holds of the operations for all operands.
//!
//! Raw values are compared as integers. Where a law speaks of the real
//! product of two values, both sides are scaled by 2^30, so that the real
//! product of the values with raw values `a` and `b` is the integer `a * b`
//! and one unit in the last place of a Q15 is 2^15.

use crate::fixed::Q15;
use crate::model::{
    add_raw, clamp, distance, lemma_product_bounds, mul_raw, neg_raw, one, raw_max, raw_min,
    representable, rounded_product, saturate, sub_raw,
};
use vstd::prelude::*;

verus! {

/// Saturation always lands in the 16-bit range, whatever the integer.
pub proof fn law_saturate_representable(x: int)
    ensures
        representable(saturate(x)),
{
}

/// Saturation leaves a value alone that is already in range. So a Q15 that
/// is scaled to an integer and saturated again comes back unchanged.
pub proof fn law_saturate_fixes_representable(q: Q15)
    ensures
        saturate(q@) == q@,
        Q15::of_raw(saturate(q@)) == q,
{
    q.lemma_representable();
    Q15::lemma_of_raw(q@);
    q.lemma_view_injective(Q15::of_raw(q@));
}

/// No operation yields a raw value outside `[-32768, 32767]`: the product,
/// the sum, the difference and the negation of any operands are in range.
pub proof fn law_results_representable(a: Q15, b: Q15)
    ensures
        representable(mul_raw(a@, b@)),
        representable(add_raw(a@, b@)),
        representable(sub_raw(a@, b@)),
        representable(neg_raw(a@)),
{
}

/// The sum is the real sum of the two values, brought into the
/// representable range: it differs from that by less than one unit in the
/// last place, and in fact by nothing.
pub proof fn law_add_within_one_ulp(a: Q15, b: Q15)
    ensures
        distance(add_raw(a@, b@), clamp(a@ + b@, raw_min(), raw_max())) < 1,
        add_raw(a@, b@) == clamp(a@ + b@, raw_min(), raw_max()),
{
}

/// The difference is the real difference of the two values, brought into
/// the representable range.
pub proof fn law_sub_is_clamped_difference(a: Q15, b: Q15)
    ensures
        sub_raw(a@, b@) == clamp(a@ - b@, raw_min(), raw_max()),
{
}

/// The negation of the least value is the greatest value; every other value
/// is negated exactly.
pub proof fn law_neg_saturates_only_at_min(a: Q15)
    ensures
        a@ == raw_min() ==> neg_raw(a@) == raw_max(),
        a@ != raw_min() ==> neg_raw(a@) == -a@,
{
    a.lemma_representable();
}

/// The rounded product leaves the 16-bit range for one pair of operands
/// only, the least value times itself, and there it is one above the range.
/// It never falls below the range.
pub proof fn law_mul_saturates_only_at_min_squared(a: Q15, b: Q15)
    ensures
        rounded_product(a@, b@) > raw_max() <==> a@ == raw_min() && b@ == raw_min(),
        rounded_product(a@, b@) <= raw_max() + 1,
        rounded_product(a@, b@) >= raw_min(),
        !(a@ == raw_min() && b@ == raw_min()) ==> mul_raw(a@, b@) == rounded_product(a@, b@),
{
    a.lemma_representable();
    b.lemma_representable();
    lemma_product_bounds(a@, b@);
    let x = a@;
    let y = b@;
    if !(x == -32768 && y == -32768) {
        assert(x * y <= 1073709056) by (nonlinear_arith)
            requires
                -32768 <= x <= 32767,
                -32768 <= y <= 32767,
                !(x == -32768 && y == -32768),
        ;
    } else {
        assert(x * y == 1073741824) by (nonlinear_arith)
            requires
                x == -32768,
                y == -32768,
        ;
    }
}

/// The product is within half a unit in the last place of the real product
/// of the two values, once that is brought into the representable range; so
/// it differs from it by less than one unit.
pub proof fn law_mul_within_one_ulp(a: Q15, b: Q15)
    ensures
        distance(
            mul_raw(a@, b@) * one(),
            clamp(a@ * b@, raw_min() * one(), raw_max() * one()),
        ) <= one() / 2,
        distance(
            mul_raw(a@, b@) * one(),
            clamp(a@ * b@, raw_min() * one(), raw_max() * one()),
        ) < one(),
{
    law_mul_saturates_only_at_min_squared(a, b);
    a.lemma_representable();
    b.lemma_representable();
    lemma_product_bounds(a@, b@);
    let x = a@;
    let y = b@;
    if x == -32768 && y == -32768 {
        assert(x * y == 1073741824) by (nonlinear_arith)
            requires
                x == -32768,
                y == -32768,
        ;
    } else {
        assert(x * y <= 1073709056) by (nonlinear_arith)
            requires
                -32768 <= x <= 32767,
                -32768 <= y <= 32767,
                !(x == -32768 && y == -32768),
        ;
    }
}

} // verus!
