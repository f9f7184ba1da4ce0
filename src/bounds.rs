use crate::bound::{
    bound_neg, bound_product, bound_quotient, bound_sum, excl, incl, is_lower_min, is_upper_max,
    lower_min, opt_view, upper_max, Bound, BoundType,
};
use crate::comparison::{comparison_neg, Comparison};
use crate::scalar::{div_trunc, Scalar};
use crate::sign_bounds::{signs_of_bounds, SignBounds};
use core::cmp::Ordering;
use vstd::prelude::*;

verus! {

/// An interval: a single exact value, or a range whose ends are optional
/// endpoints, `None` standing for negative infinity below and positive
/// infinity above.
#[derive(Debug, PartialEq, Eq, Clone, Copy)]
pub enum Bounds<T> {
    Exact(T),
    Range(Option<Bound<T>>, Option<Bound<T>>),
}

impl<T: Scalar> View for Bounds<T> {
    type V = Bounds<int>;

    open spec fn view(&self) -> Bounds<int> {
        match *self {
            Bounds::Exact(v) => Bounds::Exact(v.to_int()),
            Bounds::Range(a, b) => Bounds::Range(opt_view(a), opt_view(b)),
        }
    }
}

/// An optional interval with its values taken to integers.
pub open spec fn opt_bounds_view<T: Scalar>(r: Option<Bounds<T>>) -> Option<Bounds<int>> {
    match r {
        Some(b) => Some(b@),
        None => None,
    }
}

/// A range whose two ends are both present has its lower value no greater than
/// its upper value.
pub open spec fn well_formed(b: Bounds<int>) -> bool {
    match b {
        Bounds::Range(Some(lo), Some(hi)) => lo.value <= hi.value,
        _ => true,
    }
}

/// Whether the type `T` can hold the value of an optional endpoint.
pub open spec fn opt_fits<T: Scalar>(b: Option<Bound<int>>) -> bool {
    match b {
        Some(x) => T::in_range(x.value),
        None => true,
    }
}

/// Whether the type `T` can hold every value of an interval.
pub open spec fn fits<T: Scalar>(b: Bounds<int>) -> bool {
    match b {
        Bounds::Exact(v) => T::in_range(v),
        Bounds::Range(lo, hi) => opt_fits::<T>(lo) && opt_fits::<T>(hi),
    }
}

/// Whether the type `T` can hold every value of an optional interval.
pub open spec fn opt_bounds_fit<T: Scalar>(r: Option<Bounds<int>>) -> bool {
    match r {
        Some(b) => fits::<T>(b),
        None => true,
    }
}

pub open spec fn opt_neg(a: Option<Bound<int>>) -> Option<Bound<int>> {
    match a {
        Some(x) => Some(bound_neg(x)),
        None => None,
    }
}

/// Endpoint-wise sum; an end at infinity on either side stays at infinity.
pub open spec fn opt_sum(a: Option<Bound<int>>, b: Option<Bound<int>>) -> Option<Bound<int>> {
    match (a, b) {
        (Some(x), Some(y)) => Some(bound_sum(x, y)),
        _ => None,
    }
}

pub open spec fn opt_product(a: Option<Bound<int>>, b: Option<Bound<int>>) -> Option<Bound<int>> {
    match (a, b) {
        (Some(x), Some(y)) => Some(bound_product(x, y)),
        _ => None,
    }
}

pub open spec fn opt_quotient(a: Option<Bound<int>>, b: Option<Bound<int>>) -> Option<Bound<int>> {
    match (a, b) {
        (Some(x), Some(y)) => Some(bound_quotient(x, y)),
        _ => None,
    }
}

pub open spec fn opt_to_exclusive(a: Option<Bound<int>>) -> Option<Bound<int>> {
    match a {
        Some(x) => Some(excl(x.value)),
        None => None,
    }
}

/// Negation mirrors the interval: the ends swap and change sign.
pub open spec fn bounds_neg(a: Bounds<int>) -> Bounds<int> {
    match a {
        Bounds::Exact(v) => Bounds::Exact(-v),
        Bounds::Range(lo, hi) => Bounds::Range(opt_neg(hi), opt_neg(lo)),
    }
}

/// Sum of two intervals: lower ends add up, upper ends add up, and an exact
/// value counts as a closed endpoint on both sides.
pub open spec fn bounds_add(a: Bounds<int>, b: Bounds<int>) -> Bounds<int> {
    match (a, b) {
        (Bounds::Exact(v), Bounds::Exact(w)) => Bounds::Exact(v + w),
        (Bounds::Range(lo1, hi1), Bounds::Range(lo2, hi2)) => Bounds::Range(
            opt_sum(lo1, lo2),
            opt_sum(hi1, hi2),
        ),
        (Bounds::Exact(v), Bounds::Range(lo, hi)) => Bounds::Range(
            opt_sum(Some(incl(v)), lo),
            opt_sum(Some(incl(v)), hi),
        ),
        (Bounds::Range(lo, hi), Bounds::Exact(v)) => Bounds::Range(
            opt_sum(Some(incl(v)), lo),
            opt_sum(Some(incl(v)), hi),
        ),
    }
}

pub open spec fn bounds_sub(a: Bounds<int>, b: Bounds<int>) -> Bounds<int> {
    bounds_add(a, bounds_neg(b))
}

/// One step of the running minimum over candidate lower ends.
pub open spec fn lower_step(acc: Option<Bound<int>>, c: Option<Bound<int>>) -> Option<Bound<int>> {
    match c {
        Some(b) => Some(
            match acc {
                Some(x) => lower_min(b, x),
                None => b,
            },
        ),
        None => acc,
    }
}

/// One step of the running maximum over candidate upper ends.
pub open spec fn upper_step(acc: Option<Bound<int>>, c: Option<Bound<int>>) -> Option<Bound<int>> {
    match c {
        Some(b) => Some(
            match acc {
                Some(x) => upper_max(b, x),
                None => b,
            },
        ),
        None => acc,
    }
}

/// Whether the product of the ranges `[a, b]` and `[x, y]` is unbounded above:
/// an infinite end times a value of the matching sign.
pub open spec fn product_reaches_pos_inf(
    a: Option<Bound<int>>,
    b: Option<Bound<int>>,
    x: Option<Bound<int>>,
    y: Option<Bound<int>>,
) -> bool {
    let ls = signs_of_bounds(a, b);
    let rs = signs_of_bounds(x, y);
    ||| a is None && rs.below_zero
    ||| b is None && rs.above_zero
    ||| x is None && ls.below_zero
    ||| y is None && ls.above_zero
}

/// Whether the product of the ranges `[a, b]` and `[x, y]` is unbounded below:
/// an infinite end times a value of the opposite sign.
pub open spec fn product_reaches_neg_inf(
    a: Option<Bound<int>>,
    b: Option<Bound<int>>,
    x: Option<Bound<int>>,
    y: Option<Bound<int>>,
) -> bool {
    let ls = signs_of_bounds(a, b);
    let rs = signs_of_bounds(x, y);
    ||| a is None && rs.above_zero
    ||| b is None && rs.below_zero
    ||| x is None && ls.above_zero
    ||| y is None && ls.below_zero
}

/// The four products of present endpoints that bound a range product.
pub open spec fn product_candidates(
    a: Option<Bound<int>>,
    b: Option<Bound<int>>,
    x: Option<Bound<int>>,
    y: Option<Bound<int>>,
) -> (Option<Bound<int>>, Option<Bound<int>>, Option<Bound<int>>, Option<Bound<int>>) {
    (opt_product(a, x), opt_product(a, y), opt_product(b, x), opt_product(b, y))
}

/// Product of the ranges `[a, b]` and `[x, y]`: the smallest and the largest of
/// the candidate products, unless that side reaches infinity.
pub open spec fn range_product(
    a: Option<Bound<int>>,
    b: Option<Bound<int>>,
    x: Option<Bound<int>>,
    y: Option<Bound<int>>,
) -> Bounds<int> {
    let c = product_candidates(a, b, x, y);
    let lower = lower_step(lower_step(lower_step(lower_step(None, c.0), c.1), c.2), c.3);
    let upper = upper_step(upper_step(upper_step(upper_step(None, c.0), c.1), c.2), c.3);
    Bounds::Range(
        if product_reaches_neg_inf(a, b, x, y) {
            None
        } else {
            lower
        },
        if product_reaches_pos_inf(a, b, x, y) {
            None
        } else {
            upper
        },
    )
}

/// The exact value `v` times the range `[x, y]`: zero absorbs everything, and a
/// negative factor swaps the ends.
pub open spec fn scaled_range(v: int, x: Option<Bound<int>>, y: Option<Bound<int>>) -> Bounds<int> {
    if v == 0 {
        Bounds::Exact(0)
    } else if v > 0 {
        Bounds::Range(opt_product(Some(incl(v)), x), opt_product(Some(incl(v)), y))
    } else {
        Bounds::Range(opt_product(Some(incl(v)), y), opt_product(Some(incl(v)), x))
    }
}

pub open spec fn bounds_mul(a: Bounds<int>, b: Bounds<int>) -> Bounds<int> {
    match (a, b) {
        (Bounds::Exact(v), Bounds::Exact(w)) => Bounds::Exact(v * w),
        (Bounds::Range(lo1, hi1), Bounds::Range(lo2, hi2)) => range_product(lo1, hi1, lo2, hi2),
        (Bounds::Exact(v), Bounds::Range(lo, hi)) => scaled_range(v, lo, hi),
        (Bounds::Range(lo, hi), Bounds::Exact(v)) => scaled_range(v, lo, hi),
    }
}

/// Whether `T` can hold every value that a product computes on the way.
pub open spec fn mul_fits<T: Scalar>(a: Bounds<int>, b: Bounds<int>) -> bool {
    match (a, b) {
        (Bounds::Range(lo1, hi1), Bounds::Range(lo2, hi2)) => {
            let c = product_candidates(lo1, hi1, lo2, hi2);
            opt_fits::<T>(c.0) && opt_fits::<T>(c.1) && opt_fits::<T>(c.2) && opt_fits::<T>(c.3)
        },
        _ => fits::<T>(bounds_mul(a, b)),
    }
}

/// The exact value `v` divided by the range `[x, y]`. Undefined where the
/// divisor can be zero, and where it is the empty range open at zero on both
/// sides. An end open at zero makes the quotient unbounded on one side.
pub open spec fn point_quotient(v: int, x: Option<Bound<int>>, y: Option<Bound<int>>) -> Option<
    Bounds<int>,
> {
    if signs_of_bounds(x, y).zero {
        None
    } else if v == 0 {
        Some(Bounds::Exact(0))
    } else if x == Some(excl(0)) {
        match y {
            Some(yb) => if yb.value == 0 {
                None
            } else {
                let q = bound_quotient(incl(v), yb);
                Some(
                    if v > 0 {
                        Bounds::Range(Some(q), None)
                    } else {
                        Bounds::Range(None, Some(q))
                    },
                )
            },
            None => Some(
                if v > 0 {
                    Bounds::Range(Some(excl(0)), None)
                } else {
                    Bounds::Range(None, Some(excl(0)))
                },
            ),
        }
    } else if y == Some(excl(0)) {
        let q = match x {
            Some(xb) => bound_quotient(incl(v), xb),
            None => excl(0),
        };
        Some(
            if v > 0 {
                Bounds::Range(None, Some(q))
            } else {
                Bounds::Range(Some(q), None)
            },
        )
    } else {
        let q1 = opt_quotient(Some(incl(v)), x);
        let q2 = opt_quotient(Some(incl(v)), y);
        Some(
            if v > 0 {
                Bounds::Range(q2, q1)
            } else {
                Bounds::Range(q1, q2)
            },
        )
    }
}

pub open spec fn bounds_to_exclusive(a: Bounds<int>) -> Bounds<int> {
    match a {
        Bounds::Exact(v) => Bounds::Exact(v),
        Bounds::Range(lo, hi) => Bounds::Range(opt_to_exclusive(lo), opt_to_exclusive(hi)),
    }
}

/// A part of a quotient that came from an open end of the dividend is open.
pub open spec fn exclusive_if(a: Bounds<int>, t: BoundType) -> Bounds<int> {
    if t == BoundType::Exclusive {
        bounds_to_exclusive(a)
    } else {
        a
    }
}

/// Quotient of two intervals, or `None` where it is undefined: division by an
/// interval that can be zero, and division of a range unbounded on either side
/// by a range.
pub open spec fn bounds_div(a: Bounds<int>, b: Bounds<int>) -> Option<Bounds<int>> {
    match (a, b) {
        (Bounds::Exact(v), Bounds::Exact(d)) => if d == 0 {
            None
        } else {
            Some(Bounds::Exact(div_trunc(v, d)))
        },
        (Bounds::Range(lo, hi), Bounds::Range(x, y)) => match (lo, hi) {
            (Some(l), Some(h)) => match (
                point_quotient(l.value, x, y),
                point_quotient(h.value, x, y),
            ) {
                (Some(p), Some(q)) => Some(
                    bounds_merge(exclusive_if(p, l.bound_type), exclusive_if(q, h.bound_type)),
                ),
                _ => None,
            },
            _ => None,
        },
        (Bounds::Exact(v), Bounds::Range(x, y)) => point_quotient(v, x, y),
        (Bounds::Range(x, y), Bounds::Exact(d)) => if d == 0 {
            None
        } else if d > 0 {
            Some(
                Bounds::Range(opt_quotient(x, Some(incl(d))), opt_quotient(y, Some(incl(d)))),
            )
        } else {
            Some(
                Bounds::Range(opt_quotient(y, Some(incl(d))), opt_quotient(x, Some(incl(d)))),
            )
        },
    }
}

/// Whether `T` can hold every value that a quotient computes on the way.
pub open spec fn div_fits<T: Scalar>(a: Bounds<int>, b: Bounds<int>) -> bool {
    match (a, b) {
        (Bounds::Range(Some(l), Some(h)), Bounds::Range(x, y)) => opt_bounds_fit::<T>(
            point_quotient(l.value, x, y),
        ) && opt_bounds_fit::<T>(point_quotient(h.value, x, y)),
        _ => opt_bounds_fit::<T>(bounds_div(a, b)),
    }
}

/// The range `[x, y]` widened to hold the value `v`.
pub open spec fn merge_point(v: int, x: Option<Bound<int>>, y: Option<Bound<int>>) -> Bounds<int> {
    match (x, y) {
        (None, None) => Bounds::Range(None, None),
        (Some(xb), Some(yb)) => if is_lower_min(incl(v), xb) {
            Bounds::Range(Some(incl(v)), y)
        } else if is_upper_max(incl(v), yb) {
            Bounds::Range(x, Some(incl(v)))
        } else {
            Bounds::Range(x, y)
        },
        (Some(xb), None) => if is_lower_min(incl(v), xb) {
            Bounds::Range(Some(incl(v)), None)
        } else {
            Bounds::Range(x, None)
        },
        (None, Some(yb)) => if is_upper_max(incl(v), yb) {
            Bounds::Range(None, Some(incl(v)))
        } else {
            Bounds::Range(None, y)
        },
    }
}

/// The smallest interval that holds both: the lower of the lower ends and the
/// higher of the upper ends, an end at infinity winning on its side.
pub open spec fn bounds_merge(a: Bounds<int>, b: Bounds<int>) -> Bounds<int> {
    match (a, b) {
        (Bounds::Exact(v), Bounds::Exact(w)) => if v == w {
            Bounds::Exact(v)
        } else if v < w {
            Bounds::Range(Some(incl(v)), Some(incl(w)))
        } else {
            Bounds::Range(Some(incl(w)), Some(incl(v)))
        },
        (Bounds::Range(lo1, hi1), Bounds::Range(lo2, hi2)) => Bounds::Range(
            match (lo1, lo2) {
                (Some(p), Some(q)) => Some(lower_min(p, q)),
                _ => None,
            },
            match (hi1, hi2) {
                (Some(p), Some(q)) => Some(upper_max(p, q)),
                _ => None,
            },
        ),
        (Bounds::Exact(v), Bounds::Range(lo, hi)) => merge_point(v, lo, hi),
        (Bounds::Range(lo, hi), Bounds::Exact(v)) => merge_point(v, lo, hi),
    }
}

/// Whether a range that starts at `lower` lies wholly above one that ends at
/// `upper`: past it, or touching it at a point that one of them leaves out.
pub open spec fn starts_after(lower: Option<Bound<int>>, upper: Option<Bound<int>>) -> bool {
    match (lower, upper) {
        (Some(l), Some(u)) => if l.bound_type == BoundType::Inclusive && u.bound_type
            == BoundType::Inclusive {
            l.value > u.value
        } else {
            l.value >= u.value
        },
        _ => false,
    }
}

/// Whether the value `v` lies below the lower end `x`.
pub open spec fn point_below(v: int, x: Option<Bound<int>>) -> bool {
    match x {
        Some(l) => if l.bound_type == BoundType::Inclusive {
            v < l.value
        } else {
            v <= l.value
        },
        None => false,
    }
}

/// Whether the value `v` lies above the upper end `y`.
pub open spec fn point_above(v: int, y: Option<Bound<int>>) -> bool {
    match y {
        Some(u) => if u.bound_type == BoundType::Inclusive {
            v > u.value
        } else {
            v >= u.value
        },
        None => false,
    }
}

/// Whether the interval holds the value `x`.
pub open spec fn contains(b: Bounds<int>, x: int) -> bool {
    match b {
        Bounds::Exact(v) => x == v,
        Bounds::Range(lo, hi) => !point_below(x, lo) && !point_above(x, hi),
    }
}

/// Whether a range holds no number at all: its ends are out of order, or meet
/// at a value that one of them leaves out.
pub open spec fn is_empty(b: Bounds<int>) -> bool {
    match b {
        Bounds::Range(Some(lo), Some(hi)) => {
            ||| lo.value > hi.value
            ||| lo.value == hi.value && lo.bound_type == BoundType::Exclusive
            ||| lo.value == hi.value && hi.bound_type == BoundType::Exclusive
        },
        _ => false,
    }
}

/// The value `v` against the range `[x, y]`.
pub open spec fn point_compare(v: int, x: Option<Bound<int>>, y: Option<Bound<int>>) -> Comparison {
    if point_below(v, x) {
        Comparison::Less
    } else if point_above(v, y) {
        Comparison::Greater
    } else {
        Comparison::Intersects
    }
}

pub open spec fn bounds_compare(a: Bounds<int>, b: Bounds<int>) -> Comparison {
    match (a, b) {
        (Bounds::Exact(v), Bounds::Exact(w)) => if v == w {
            Comparison::Intersects
        } else if v < w {
            Comparison::Less
        } else {
            Comparison::Greater
        },
        (Bounds::Range(lo1, hi1), Bounds::Range(lo2, hi2)) => if starts_after(lo1, hi2) {
            Comparison::Greater
        } else if starts_after(lo2, hi1) {
            Comparison::Less
        } else {
            Comparison::Intersects
        },
        (Bounds::Exact(v), Bounds::Range(lo, hi)) => point_compare(v, lo, hi),
        (Bounds::Range(lo, hi), Bounds::Exact(v)) => comparison_neg(point_compare(v, lo, hi)),
    }
}

/// Width of an interval, regardless of openness; `None` where it is unbounded.
pub open spec fn bounds_size(a: Bounds<int>) -> Option<int> {
    match a {
        Bounds::Exact(_) => Some(0),
        Bounds::Range(Some(lo), Some(hi)) => Some(hi.value - lo.value),
        _ => None,
    }
}

impl<T: Scalar> Bounds<T> {
    fn is_zero(v: &T) -> (r: bool)
        ensures
            r == (v.to_int() == 0),
    {
        match v.compare(&T::zero()) {
            Ordering::Equal => true,
            _ => false,
        }
    }

    fn is_open_zero(b: &Option<Bound<T>>) -> (r: bool)
        ensures
            r == (opt_view(*b) == Some(excl(0))),
    {
        match b {
            Some(x) => x.bound_type == BoundType::Exclusive && Self::is_zero(&x.value),
            None => false,
        }
    }

    fn opt_negate(a: Option<Bound<T>>) -> (r: Option<Bound<T>>)
        requires
            opt_fits::<T>(opt_neg(opt_view(a))),
        ensures
            opt_view(r) == opt_neg(opt_view(a)),
    {
        match a {
            Some(x) => Some(x.negate()),
            None => None,
        }
    }

    fn opt_add(a: Option<Bound<T>>, b: Option<Bound<T>>) -> (r: Option<Bound<T>>)
        requires
            opt_fits::<T>(opt_sum(opt_view(a), opt_view(b))),
        ensures
            opt_view(r) == opt_sum(opt_view(a), opt_view(b)),
    {
        let f = |p: Bound<T>, q: Bound<T>| -> (s: Bound<T>)
            requires
                T::in_range(p@.value + q@.value),
            ensures
                s@ == bound_sum(p@, q@),
            { p.add(q) };
        combine_opts(a, b, f)
    }

    fn opt_multiply(a: Option<Bound<T>>, b: Option<Bound<T>>) -> (r: Option<Bound<T>>)
        requires
            opt_fits::<T>(opt_product(opt_view(a), opt_view(b))),
        ensures
            opt_view(r) == opt_product(opt_view(a), opt_view(b)),
    {
        let f = |p: Bound<T>, q: Bound<T>| -> (s: Bound<T>)
            requires
                T::in_range(p@.value * q@.value),
            ensures
                s@ == bound_product(p@, q@),
            { p.multiply(q) };
        combine_opts(a, b, f)
    }

    fn opt_divide(a: Option<Bound<T>>, b: Option<Bound<T>>) -> (r: Option<Bound<T>>)
        requires
            opt_fits::<T>(opt_quotient(opt_view(a), opt_view(b))),
            match b {
                Some(d) => d@.value != 0,
                None => true,
            },
        ensures
            opt_view(r) == opt_quotient(opt_view(a), opt_view(b)),
    {
        let f = |p: Bound<T>, q: Bound<T>| -> (s: Bound<T>)
            requires
                q@.value != 0,
                T::in_range(div_trunc(p@.value, q@.value)),
            ensures
                s@ == bound_quotient(p@, q@),
            { p.divide(q) };
        combine_opts(a, b, f)
    }

    /// The same interval with every present end made open.
    fn to_exclusive(self) -> (r: Self)
        ensures
            r@ == bounds_to_exclusive(self@),
    {
        match self {
            Bounds::Exact(x) => Bounds::Exact(x),
            Bounds::Range(a, b) => Bounds::Range(
                match a {
                    Some(x) => Some(x.to_exclusive()),
                    None => None,
                },
                match b {
                    Some(x) => Some(x.to_exclusive()),
                    None => None,
                },
            ),
        }
    }

    /// The value `v` divided by the range `[x, y]`.
    fn point_divide(v: T, x: Option<Bound<T>>, y: Option<Bound<T>>) -> (r: Option<Self>)
        requires
            opt_bounds_fit::<T>(point_quotient(v.to_int(), opt_view(x), opt_view(y))),
        ensures
            opt_bounds_view(r) == point_quotient(v.to_int(), opt_view(x), opt_view(y)),
    {
        if SignBounds::from_bounds(&x, &y).zero {
            return None;
        }
        let positive = match v.compare(&T::zero()) {
            Ordering::Equal => {
                return Some(Bounds::Exact(T::zero()));
            },
            Ordering::Greater => true,
            Ordering::Less => false,
        };
        if Self::is_open_zero(&x) {
            let bound = match y {
                Some(yb) => {
                    if Self::is_zero(&yb.value) {
                        return None;
                    }
                    Bound::inclusive(v).divide(yb)
                },
                None => Bound::exclusive(T::zero()),
            };
            return Some(
                if positive {
                    Bounds::Range(Some(bound), None)
                } else {
                    Bounds::Range(None, Some(bound))
                },
            );
        }
        if Self::is_open_zero(&y) {
            let bound = match x {
                Some(xb) => Bound::inclusive(v).divide(xb),
                None => Bound::exclusive(T::zero()),
            };
            return Some(
                if positive {
                    Bounds::Range(None, Some(bound))
                } else {
                    Bounds::Range(Some(bound), None)
                },
            );
        }
        let bound_1 = Self::opt_divide(Some(Bound::inclusive(v)), x);
        let bound_2 = Self::opt_divide(Some(Bound::inclusive(v)), y);
        Some(
            if positive {
                Bounds::Range(bound_2, bound_1)
            } else {
                Bounds::Range(bound_1, bound_2)
            },
        )
    }

    /// Divides two intervals. The result is `None` where the quotient is
    /// undefined: where the divisor can be zero, where it is the empty range
    /// open at zero on both sides, and where a range unbounded on either side
    /// is divided by a range, a case that this library rejects rather than
    /// guesses at. Integer quotients truncate toward zero.
    pub fn divide(self, other: Self) -> (r: Option<Self>)
        requires
            div_fits::<T>(self@, other@),
        ensures
            opt_bounds_view(r) == bounds_div(self@, other@),
    {
        match (self, other) {
            (Bounds::Exact(a), Bounds::Exact(x)) => {
                if Self::is_zero(&x) {
                    None
                } else {
                    Some(Bounds::Exact(a.divide(x)))
                }
            },
            (Bounds::Range(lo, hi), Bounds::Range(x, y)) => match (lo, hi) {
                (Some(a), Some(b)) => {
                    let left = Self::point_divide(a.value, x, y);
                    let right = Self::point_divide(b.value, x, y);
                    match (left, right) {
                        (Some(l), Some(r)) => {
                            let l = if a.bound_type == BoundType::Exclusive {
                                l.to_exclusive()
                            } else {
                                l
                            };
                            let r = if b.bound_type == BoundType::Exclusive {
                                r.to_exclusive()
                            } else {
                                r
                            };
                            Some(l.merge(r))
                        },
                        _ => None,
                    }
                },
                _ => None,
            },
            (Bounds::Exact(a), Bounds::Range(x, y)) => Self::point_divide(a, x, y),
            (Bounds::Range(x, y), Bounds::Exact(a)) => match a.compare(&T::zero()) {
                Ordering::Equal => None,
                Ordering::Greater => Some(
                    Bounds::Range(
                        Self::opt_divide(x, Some(Bound::inclusive(a))),
                        Self::opt_divide(y, Some(Bound::inclusive(a))),
                    ),
                ),
                Ordering::Less => Some(
                    Bounds::Range(
                        Self::opt_divide(y, Some(Bound::inclusive(a))),
                        Self::opt_divide(x, Some(Bound::inclusive(a))),
                    ),
                ),
            },
        }
    }

    /// The range `[x, y]` widened to hold the value `v`.
    fn merge_point(v: T, x: Option<Bound<T>>, y: Option<Bound<T>>) -> (r: Self)
        ensures
            r@ == merge_point(v.to_int(), opt_view(x), opt_view(y)),
    {
        let a_bound = Bound::inclusive(v);
        match (x, y) {
            (None, None) => Bounds::Range(None, None),
            (Some(xb), Some(yb)) => {
                if a_bound.is_lower_bound_min(&xb) {
                    Bounds::Range(Some(a_bound), Some(yb))
                } else if a_bound.is_upper_bound_max(&yb) {
                    Bounds::Range(Some(xb), Some(a_bound))
                } else {
                    Bounds::Range(Some(xb), Some(yb))
                }
            },
            (Some(xb), None) => {
                if a_bound.is_lower_bound_min(&xb) {
                    Bounds::Range(Some(a_bound), None)
                } else {
                    Bounds::Range(Some(xb), None)
                }
            },
            (None, Some(yb)) => {
                if a_bound.is_upper_bound_max(&yb) {
                    Bounds::Range(None, Some(a_bound))
                } else {
                    Bounds::Range(None, Some(yb))
                }
            },
        }
    }

    /// The smallest interval that holds both intervals.
    pub fn merge(self, other: Self) -> (r: Self)
        ensures
            r@ == bounds_merge(self@, other@),
    {
        match (self, other) {
            (Bounds::Exact(a), Bounds::Exact(x)) => match a.compare(&x) {
                Ordering::Equal => Bounds::Exact(a),
                Ordering::Less => Bounds::Range(
                    Some(Bound::inclusive(a)),
                    Some(Bound::inclusive(x)),
                ),
                Ordering::Greater => Bounds::Range(
                    Some(Bound::inclusive(x)),
                    Some(Bound::inclusive(a)),
                ),
            },
            (Bounds::Range(a, b), Bounds::Range(x, y)) => {
                let high = match (b, y) {
                    (Some(b), Some(y)) => Some(Bound::upper_bound_max(b, y)),
                    _ => None,
                };
                let low = match (a, x) {
                    (Some(a), Some(x)) => Some(Bound::lower_bound_min(a, x)),
                    _ => None,
                };
                Bounds::Range(low, high)
            },
            (Bounds::Exact(a), Bounds::Range(x, y)) => Self::merge_point(a, x, y),
            (Bounds::Range(x, y), Bounds::Exact(a)) => Self::merge_point(a, x, y),
        }
    }
    /// Whether a range that starts at `lower` lies wholly above one that ends
    /// at `upper`.
    fn starts_after(lower: &Option<Bound<T>>, upper: &Option<Bound<T>>) -> (r: bool)
        ensures
            r == starts_after(opt_view(*lower), opt_view(*upper)),
    {
        match (lower, upper) {
            (Some(l), Some(u)) => {
                if l.bound_type == BoundType::Inclusive && u.bound_type == BoundType::Inclusive {
                    match l.value.compare(&u.value) {
                        Ordering::Greater => true,
                        _ => false,
                    }
                } else {
                    match l.value.compare(&u.value) {
                        Ordering::Less => false,
                        _ => true,
                    }
                }
            },
            _ => false,
        }
    }

    /// The value `v` against the range `[x, y]`.
    fn point_compare(v: &T, x: &Option<Bound<T>>, y: &Option<Bound<T>>) -> (r: Comparison)
        ensures
            r == point_compare(v.to_int(), opt_view(*x), opt_view(*y)),
    {
        if let Some(x) = x {
            let ord = v.compare(&x.value);
            match x.bound_type {
                BoundType::Inclusive => {
                    if let Ordering::Less = ord {
                        return Comparison::Less;
                    }
                },
                BoundType::Exclusive => {
                    if let Ordering::Greater = ord {
                    } else {
                        return Comparison::Less;
                    }
                },
            }
        }
        if let Some(y) = y {
            let ord = v.compare(&y.value);
            match y.bound_type {
                BoundType::Inclusive => {
                    if let Ordering::Greater = ord {
                        return Comparison::Greater;
                    }
                },
                BoundType::Exclusive => {
                    if let Ordering::Less = ord {
                    } else {
                        return Comparison::Greater;
                    }
                },
            }
        }
        Comparison::Intersects
    }

    /// Places this interval against another: `Less` if it lies wholly below,
    /// `Greater` if wholly above, `Intersects` if they share a point.
    pub fn compare_to(&self, other: &Bounds<T>) -> (r: Comparison)
        ensures
            r == bounds_compare(self@, other@),
    {
        match (self, other) {
            (Bounds::Exact(a), Bounds::Exact(x)) => match a.compare(x) {
                Ordering::Equal => Comparison::Intersects,
                Ordering::Less => Comparison::Less,
                Ordering::Greater => Comparison::Greater,
            },
            (Bounds::Range(a, b), Bounds::Range(x, y)) => {
                if Self::starts_after(a, y) {
                    Comparison::Greater
                } else if Self::starts_after(x, b) {
                    Comparison::Less
                } else {
                    Comparison::Intersects
                }
            },
            (Bounds::Range(x, y), Bounds::Exact(a)) => Self::point_compare(a, x, y).negate(),
            (Bounds::Exact(a), Bounds::Range(x, y)) => Self::point_compare(a, x, y),
        }
    }

    pub fn intersects(&self, other: &Bounds<T>) -> (r: bool)
        ensures
            r == (bounds_compare(self@, other@) == Comparison::Intersects),
    {
        match self.compare_to(other) {
            Comparison::Intersects => true,
            _ => false,
        }
    }

    /// Whether a range's lower value is no greater than its upper value, the
    /// invariant that the operations take for granted.
    pub fn is_valid(&self) -> (r: bool)
        ensures
            r == well_formed(self@),
    {
        match self {
            Bounds::Range(Some(a), Some(b)) => match a.value.compare(&b.value) {
                Ordering::Greater => false,
                _ => true,
            },
            _ => true,
        }
    }

    /// The width of the interval, regardless of openness: zero for an exact
    /// value, `None` where it is unbounded.
    pub fn size(&self) -> (r: Option<T>)
        requires
            match bounds_size(self@) {
                Some(s) => T::in_range(s),
                None => true,
            },
        ensures
            match r {
                Some(s) => bounds_size(self@) == Some(s.to_int()),
                None => bounds_size(self@) is None,
            },
            self is Exact ==> r is Some && r->0.to_int() == 0,
            well_formed(self@) && r is Some ==> r->0.to_int() >= 0,
    {
        match self {
            Bounds::Exact(_) => Some(T::zero()),
            Bounds::Range(Some(a), Some(b)) => Some(b.value.subtract(a.value)),
            _ => None,
        }
    }

    /// Negates the interval; a range swaps its ends.
    pub fn negate(self) -> (r: Self)
        requires
            fits::<T>(bounds_neg(self@)),
        ensures
            r@ == bounds_neg(self@),
    {
        match self {
            Bounds::Exact(x) => Bounds::Exact(x.negate()),
            Bounds::Range(a, b) => Bounds::Range(Self::opt_negate(b), Self::opt_negate(a)),
        }
    }

    pub fn add(self, other: Self) -> (r: Self)
        requires
            fits::<T>(bounds_add(self@, other@)),
        ensures
            r@ == bounds_add(self@, other@),
    {
        match (self, other) {
            (Bounds::Exact(a), Bounds::Exact(x)) => Bounds::Exact(a.add(x)),
            (Bounds::Range(a, b), Bounds::Range(x, y)) => Bounds::Range(
                Self::opt_add(a, x),
                Self::opt_add(b, y),
            ),
            (Bounds::Exact(a), Bounds::Range(x, y)) => Bounds::Range(
                Self::opt_add(Some(Bound::inclusive(a)), x),
                Self::opt_add(Some(Bound::inclusive(a)), y),
            ),
            (Bounds::Range(x, y), Bounds::Exact(a)) => Bounds::Range(
                Self::opt_add(Some(Bound::inclusive(a)), x),
                Self::opt_add(Some(Bound::inclusive(a)), y),
            ),
        }
    }

    /// `self + (-other)`.
    pub fn subtract(self, other: Self) -> (r: Self)
        requires
            fits::<T>(bounds_neg(other@)),
            fits::<T>(bounds_sub(self@, other@)),
        ensures
            r@ == bounds_sub(self@, other@),
    {
        self.add(other.negate())
    }

    fn min_lower(acc: Option<Bound<T>>, c: Option<Bound<T>>) -> (r: Option<Bound<T>>)
        ensures
            opt_view(r) == lower_step(opt_view(acc), opt_view(c)),
    {
        match c {
            Some(b) => Some(
                match acc {
                    Some(x) => Bound::lower_bound_min(b, x),
                    None => b,
                },
            ),
            None => acc,
        }
    }

    fn max_upper(acc: Option<Bound<T>>, c: Option<Bound<T>>) -> (r: Option<Bound<T>>)
        ensures
            opt_view(r) == upper_step(opt_view(acc), opt_view(c)),
    {
        match c {
            Some(b) => Some(
                match acc {
                    Some(x) => Bound::upper_bound_max(b, x),
                    None => b,
                },
            ),
            None => acc,
        }
    }

    /// The product of the ranges `[a, b]` and `[x, y]`.
    fn range_product(
        a: Option<Bound<T>>,
        b: Option<Bound<T>>,
        x: Option<Bound<T>>,
        y: Option<Bound<T>>,
    ) -> (r: Self)
        requires
            mul_fits::<T>(
                Bounds::Range(opt_view(a), opt_view(b)),
                Bounds::Range(opt_view(x), opt_view(y)),
            ),
        ensures
            r@ == range_product(opt_view(a), opt_view(b), opt_view(x), opt_view(y)),
    {
        let left_signs = SignBounds::from_bounds(&a, &b);
        let right_signs = SignBounds::from_bounds(&x, &y);
        let mut negative_infinity = false;
        let mut positive_infinity = false;
        if a.is_none() {
            positive_infinity = positive_infinity || right_signs.below_zero;
            negative_infinity = negative_infinity || right_signs.above_zero;
        }
        if b.is_none() {
            positive_infinity = positive_infinity || right_signs.above_zero;
            negative_infinity = negative_infinity || right_signs.below_zero;
        }
        if x.is_none() {
            positive_infinity = positive_infinity || left_signs.below_zero;
            negative_infinity = negative_infinity || left_signs.above_zero;
        }
        if y.is_none() {
            positive_infinity = positive_infinity || left_signs.above_zero;
            negative_infinity = negative_infinity || left_signs.below_zero;
        }
        let c0 = Self::opt_multiply(a, x);
        let c1 = Self::opt_multiply(a, y);
        let c2 = Self::opt_multiply(b, x);
        let c3 = Self::opt_multiply(b, y);
        let mut lower_bound: Option<Bound<T>> = None;
        let mut upper_bound: Option<Bound<T>> = None;
        lower_bound = Self::min_lower(lower_bound, c0);
        upper_bound = Self::max_upper(upper_bound, c0);
        lower_bound = Self::min_lower(lower_bound, c1);
        upper_bound = Self::max_upper(upper_bound, c1);
        lower_bound = Self::min_lower(lower_bound, c2);
        upper_bound = Self::max_upper(upper_bound, c2);
        lower_bound = Self::min_lower(lower_bound, c3);
        upper_bound = Self::max_upper(upper_bound, c3);
        Bounds::Range(
            if negative_infinity {
                None
            } else {
                lower_bound
            },
            if positive_infinity {
                None
            } else {
                upper_bound
            },
        )
    }

    /// The exact value `v` times the range `[x, y]`.
    fn scale(v: T, x: Option<Bound<T>>, y: Option<Bound<T>>) -> (r: Self)
        requires
            fits::<T>(scaled_range(v.to_int(), opt_view(x), opt_view(y))),
        ensures
            r@ == scaled_range(v.to_int(), opt_view(x), opt_view(y)),
    {
        match v.compare(&T::zero()) {
            Ordering::Equal => Bounds::Exact(v),
            Ordering::Greater => Bounds::Range(
                Self::opt_multiply(Some(Bound::inclusive(v)), x),
                Self::opt_multiply(Some(Bound::inclusive(v)), y),
            ),
            Ordering::Less => Bounds::Range(
                Self::opt_multiply(Some(Bound::inclusive(v)), y),
                Self::opt_multiply(Some(Bound::inclusive(v)), x),
            ),
        }
    }

    /// Multiplies two intervals. A range times a range takes the extreme of
    /// the four endpoint products on each side, or reaches infinity there
    /// where an unbounded end meets a factor of the right sign. Zero times any
    /// interval, an unbounded one included, is exactly zero: every value of
    /// that interval times zero is zero.
    pub fn multiply(self, other: Self) -> (r: Self)
        requires
            mul_fits::<T>(self@, other@),
        ensures
            r@ == bounds_mul(self@, other@),
    {
        match (self, other) {
            (Bounds::Exact(a), Bounds::Exact(x)) => Bounds::Exact(a.multiply(x)),
            (Bounds::Range(a, b), Bounds::Range(x, y)) => Self::range_product(a, b, x, y),
            (Bounds::Exact(a), Bounds::Range(x, y)) => Self::scale(a, x, y),
            (Bounds::Range(x, y), Bounds::Exact(a)) => Self::scale(a, x, y),
        }
    }
}

impl<T> Bounds<T> {
    /// The range from `start` to `end`.
    pub fn range(start: Bound<T>, end: Bound<T>) -> (r: Self)
        ensures
            r == Bounds::Range(Some(start), Some(end)),
    {
        Bounds::Range(Some(start), Some(end))
    }
}

/// `start..end` is the range closed at `start` and open at `end`.
impl<T> From<core::ops::Range<T>> for Bounds<T> {
    fn from(range: core::ops::Range<T>) -> (r: Self) {
        Bounds::Range(Some(Bound::inclusive(range.start)), Some(Bound::exclusive(range.end)))
    }
}

impl<T> vstd::std_specs::convert::FromSpecImpl<core::ops::Range<T>> for Bounds<T> {
    open spec fn obeys_from_spec() -> bool {
        true
    }

    open spec fn from_spec(range: core::ops::Range<T>) -> Self {
        Bounds::Range(
            Some(Bound { bound_type: BoundType::Inclusive, value: range.start }),
            Some(Bound { bound_type: BoundType::Exclusive, value: range.end }),
        )
    }
}

/// Applies `func` where both arguments are present; `None` otherwise.
fn combine_opts<U, F: FnOnce(U, U) -> U>(a: Option<U>, b: Option<U>, func: F) -> (r: Option<U>)
    requires
        match (a, b) {
            (Some(x), Some(y)) => func.requires((x, y)),
            _ => true,
        },
    ensures
        match (a, b) {
            (Some(x), Some(y)) => r is Some && func.ensures((x, y), r->0),
            _ => r is None,
        },
{
    match (a, b) {
        (Some(a), Some(b)) => Some(func(a, b)),
        _ => None,
    }
}

} // verus!
