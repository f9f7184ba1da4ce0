use crate::bounds::{
    bounds_add, bounds_compare, bounds_merge, bounds_mul, bounds_neg, contains, fits, is_empty,
    starts_after, Bounds,
};
use crate::comparison::{comparison_neg, Comparison};
use crate::scalar::Scalar;
use vstd::prelude::*;

verus! {

/// Whether `a` and `b` are ranges each of which starts after the other ends.
/// For valid ranges this happens only where all four ends share one value and
/// each range leaves that value out at one of its ends, as `[1, 1)` does.
pub open spec fn each_starts_after_other(a: Bounds<int>, b: Bounds<int>) -> bool {
    match (a, b) {
        (Bounds::Range(lo1, hi1), Bounds::Range(lo2, hi2)) => starts_after(lo1, hi2)
            && starts_after(lo2, hi1),
        _ => false,
    }
}

/// Whether two intervals intersect does not depend on the order in which they
/// are compared.
pub proof fn lemma_intersects_symmetric<T: Scalar>(a: Bounds<T>, b: Bounds<T>)
    ensures
        (bounds_compare(a@, b@) == Comparison::Intersects) == (bounds_compare(b@, a@)
            == Comparison::Intersects),
{
}

/// Negating twice gives the interval back, and the second negation can hold its
/// values wherever the first one can.
pub proof fn lemma_negate_involutive<T: Scalar>(a: Bounds<T>)
    ensures
        bounds_neg(bounds_neg(a@)) == a@,
        fits::<T>(bounds_neg(bounds_neg(a@))),
{
    match a {
        Bounds::Exact(v) => T::lemma_to_int_in_range(v),
        Bounds::Range(lo, hi) => {
            if let Some(x) = lo {
                T::lemma_to_int_in_range(x.value);
            }
            if let Some(y) = hi {
                T::lemma_to_int_in_range(y.value);
            }
        },
    }
}

/// Comparing in the other order negates the comparison, for any two intervals
/// of which not each starts after the other ends.
pub proof fn lemma_compare_antisymmetric<T: Scalar>(a: Bounds<T>, b: Bounds<T>)
    requires
        !each_starts_after_other(a@, b@),
    ensures
        bounds_compare(a@, b@) == comparison_neg(bounds_compare(b@, a@)),
{
}

/// Merging an interval with itself gives it back, and merging does not depend
/// on the order of its operands.
pub proof fn lemma_merge_idempotent_commutative<T: Scalar>(a: Bounds<T>, b: Bounds<T>)
    ensures
        bounds_merge(a@, a@) == a@,
        bounds_merge(a@, b@) == bounds_merge(b@, a@),
{
}

/// A value lies in an interval exactly when its negation lies in the negated
/// interval.
pub proof fn lemma_negate_contains<T: Scalar>(a: Bounds<T>, x: int)
    ensures
        contains(a@, x) == contains(bounds_neg(a@), -x),
{
}

/// The sum of a value of one interval and a value of another lies in their sum.
pub proof fn lemma_add_contains<T: Scalar>(a: Bounds<T>, b: Bounds<T>, x: int, y: int)
    requires
        contains(a@, x),
        contains(b@, y),
    ensures
        contains(bounds_add(a@, b@), x + y),
{
}

/// A value of either interval lies in their merge, where neither is an empty
/// range.
pub proof fn lemma_merge_contains<T: Scalar>(a: Bounds<T>, b: Bounds<T>, x: int)
    requires
        !is_empty(a@),
        !is_empty(b@),
        contains(a@, x) || contains(b@, x),
    ensures
        contains(bounds_merge(a@, b@), x),
{
}

/// An exact value intersects an interval exactly when the interval holds it.
pub proof fn lemma_point_intersects<T: Scalar>(v: T, b: Bounds<T>)
    ensures
        (bounds_compare(Bounds::Exact(v)@, b@) == Comparison::Intersects) == contains(
            b@,
            v.to_int(),
        ),
        (bounds_compare(b@, Bounds::Exact(v)@) == Comparison::Intersects) == contains(
            b@,
            v.to_int(),
        ),
{
}

/// The product of an exact value and a value of another interval lies in their
/// product.
pub proof fn lemma_scale_contains<T: Scalar>(v: T, b: Bounds<T>, y: int)
    requires
        contains(b@, y),
    ensures
        contains(bounds_mul(Bounds::Exact(v)@, b@), v.to_int() * y),
        contains(bounds_mul(b@, Bounds::Exact(v)@), v.to_int() * y),
{
    let w = v.to_int();
    assert(w == 0 ==> w * y == 0) by (nonlinear_arith);
    assert(y * w == w * y) by (nonlinear_arith);
    if let Bounds::Range(lo, hi) = b@ {
        if let Some(l) = lo {
            assert(w > 0 && l.value <= y ==> w * l.value <= w * y) by (nonlinear_arith);
            assert(w > 0 && l.value < y ==> w * l.value < w * y) by (nonlinear_arith);
            assert(w < 0 && l.value <= y ==> w * l.value >= w * y) by (nonlinear_arith);
            assert(w < 0 && l.value < y ==> w * l.value > w * y) by (nonlinear_arith);
        }
        if let Some(h) = hi {
            assert(w > 0 && y <= h.value ==> w * y <= w * h.value) by (nonlinear_arith);
            assert(w > 0 && y < h.value ==> w * y < w * h.value) by (nonlinear_arith);
            assert(w < 0 && y <= h.value ==> w * y >= w * h.value) by (nonlinear_arith);
            assert(w < 0 && y < h.value ==> w * y > w * h.value) by (nonlinear_arith);
        }
    }
}

} // verus!
