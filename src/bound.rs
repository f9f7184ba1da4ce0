use crate::scalar::{div_trunc, Scalar};
use core::cmp::Ordering;
use vstd::prelude::*;

verus! {

/// Whether an endpoint belongs to the interval (closed) or only bounds it (open).
#[derive(Debug, PartialEq, Eq, Structural, Clone, Copy)]
pub enum BoundType {
    Inclusive,
    Exclusive,
}

/// One end of an interval: a value tagged open or closed.
#[derive(Debug, PartialEq, Eq, Clone, Copy)]
pub struct Bound<T> {
    pub bound_type: BoundType,
    pub value: T,
}

impl<T: Scalar> View for Bound<T> {
    type V = Bound<int>;

    open spec fn view(&self) -> Bound<int> {
        Bound { bound_type: self.bound_type, value: self.value.to_int() }
    }
}

/// An optional endpoint with its value taken to an integer; `None` stands for
/// an end at infinity.
pub open spec fn opt_view<T: Scalar>(b: Option<Bound<T>>) -> Option<Bound<int>> {
    match b {
        Some(x) => Some(x@),
        None => None,
    }
}

/// A closed endpoint at `v`.
pub open spec fn incl(v: int) -> Bound<int> {
    Bound { bound_type: BoundType::Inclusive, value: v }
}

/// An open endpoint at `v`.
pub open spec fn excl(v: int) -> Bound<int> {
    Bound { bound_type: BoundType::Exclusive, value: v }
}

/// Whether `a` is at least as large as `b` taken as upper bounds: the larger
/// value wins, and at equal values a closed endpoint wins, since it holds that
/// value and an open one does not.
pub open spec fn is_upper_max(a: Bound<int>, b: Bound<int>) -> bool {
    a.value > b.value || (a.value == b.value && a.bound_type == BoundType::Inclusive)
}

/// Whether `a` is at most as large as `b` taken as lower bounds: the smaller
/// value wins, and at equal values a closed endpoint wins.
pub open spec fn is_lower_min(a: Bound<int>, b: Bound<int>) -> bool {
    a.value < b.value || (a.value == b.value && a.bound_type == BoundType::Inclusive)
}

pub open spec fn upper_max(a: Bound<int>, b: Bound<int>) -> Bound<int> {
    if is_upper_max(a, b) {
        a
    } else {
        b
    }
}

pub open spec fn lower_min(a: Bound<int>, b: Bound<int>) -> Bound<int> {
    if is_lower_min(a, b) {
        a
    } else {
        b
    }
}

/// A combined endpoint is closed only where both of its sources are closed.
pub open spec fn combined_type(a: BoundType, b: BoundType) -> BoundType {
    if a == BoundType::Exclusive || b == BoundType::Exclusive {
        BoundType::Exclusive
    } else {
        BoundType::Inclusive
    }
}

pub open spec fn bound_neg(a: Bound<int>) -> Bound<int> {
    Bound { bound_type: a.bound_type, value: -a.value }
}

pub open spec fn bound_sum(a: Bound<int>, b: Bound<int>) -> Bound<int> {
    Bound { bound_type: combined_type(a.bound_type, b.bound_type), value: a.value + b.value }
}

pub open spec fn bound_product(a: Bound<int>, b: Bound<int>) -> Bound<int> {
    Bound { bound_type: combined_type(a.bound_type, b.bound_type), value: a.value * b.value }
}

pub open spec fn bound_quotient(a: Bound<int>, b: Bound<int>) -> Bound<int> {
    Bound {
        bound_type: combined_type(a.bound_type, b.bound_type),
        value: div_trunc(a.value, b.value),
    }
}

impl<T: Scalar> Bound<T> {
    /// The larger of two upper bounds.
    pub fn upper_bound_max(a: Self, b: Self) -> (r: Self)
        ensures
            r == (if is_upper_max(a@, b@) {
                a
            } else {
                b
            }),
            r@ == upper_max(a@, b@),
    {
        if a.is_upper_bound_max(&b) {
            a
        } else {
            b
        }
    }

    pub fn is_upper_bound_max(&self, other: &Self) -> (r: bool)
        ensures
            r == is_upper_max(self@, other@),
    {
        match self.value.compare(&other.value) {
            Ordering::Greater => true,
            Ordering::Less => false,
            Ordering::Equal => self.bound_type == BoundType::Inclusive,
        }
    }

    /// The smaller of two lower bounds.
    pub fn lower_bound_min(a: Self, b: Self) -> (r: Self)
        ensures
            r == (if is_lower_min(a@, b@) {
                a
            } else {
                b
            }),
            r@ == lower_min(a@, b@),
    {
        if a.is_lower_bound_min(&b) {
            a
        } else {
            b
        }
    }

    pub fn is_lower_bound_min(&self, other: &Self) -> (r: bool)
        ensures
            r == is_lower_min(self@, other@),
    {
        match self.value.compare(&other.value) {
            Ordering::Greater => false,
            Ordering::Less => true,
            Ordering::Equal => self.bound_type == BoundType::Inclusive,
        }
    }

    /// Negates the value and keeps the openness.
    pub fn negate(self) -> (r: Self)
        requires
            T::in_range(-self@.value),
        ensures
            r@ == bound_neg(self@),
    {
        Bound { bound_type: self.bound_type, value: self.value.negate() }
    }

    pub fn add(self, other: Self) -> (r: Self)
        requires
            T::in_range(self@.value + other@.value),
        ensures
            r@ == bound_sum(self@, other@),
    {
        let f = |x: T, y: T| -> (z: T)
            requires
                T::in_range(x.to_int() + y.to_int()),
            ensures
                z.to_int() == x.to_int() + y.to_int(),
            { x.add(y) };
        self.combine(other, f)
    }

    pub fn multiply(self, other: Self) -> (r: Self)
        requires
            T::in_range(self@.value * other@.value),
        ensures
            r@ == bound_product(self@, other@),
    {
        let f = |x: T, y: T| -> (z: T)
            requires
                T::in_range(x.to_int() * y.to_int()),
            ensures
                z.to_int() == x.to_int() * y.to_int(),
            { x.multiply(y) };
        self.combine(other, f)
    }

    pub fn divide(self, other: Self) -> (r: Self)
        requires
            other@.value != 0,
            T::in_range(div_trunc(self@.value, other@.value)),
        ensures
            r@ == bound_quotient(self@, other@),
    {
        let f = |x: T, y: T| -> (z: T)
            requires
                y.to_int() != 0,
                T::in_range(div_trunc(x.to_int(), y.to_int())),
            ensures
                z.to_int() == div_trunc(x.to_int(), y.to_int()),
            { x.divide(y) };
        self.combine(other, f)
    }
}

impl<T> Bound<T> {
    pub fn inclusive(value: T) -> (r: Bound<T>)
        ensures
            r.bound_type == BoundType::Inclusive,
            r.value == value,
    {
        Bound { bound_type: BoundType::Inclusive, value }
    }

    pub fn exclusive(value: T) -> (r: Bound<T>)
        ensures
            r.bound_type == BoundType::Exclusive,
            r.value == value,
    {
        Bound { bound_type: BoundType::Exclusive, value }
    }

    /// The same value, made open.
    pub fn to_exclusive(self) -> (r: Bound<T>)
        ensures
            r.bound_type == BoundType::Exclusive,
            r.value == self.value,
    {
        Bound::exclusive(self.value)
    }

    /// Applies `func` to the two values; the result is open if either input is.
    pub fn combine<F: FnOnce(T, T) -> T>(self, other: Self, func: F) -> (r: Self)
        requires
            func.requires((self.value, other.value)),
        ensures
            func.ensures((self.value, other.value), r.value),
            r.bound_type == combined_type(self.bound_type, other.bound_type),
    {
        let bound_type = if self.bound_type == BoundType::Exclusive || other.bound_type
            == BoundType::Exclusive {
            BoundType::Exclusive
        } else {
            BoundType::Inclusive
        };
        Bound { bound_type, value: func(self.value, other.value) }
    }
}

} // verus!
