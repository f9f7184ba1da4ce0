use crate::bound::{opt_view, Bound, BoundType};
use crate::scalar::Scalar;
use core::cmp::Ordering;
use vstd::prelude::*;

verus! {

/// Which signs the values near an interval's ends can take.
#[derive(Debug, PartialEq, Eq, Structural, Clone, Copy)]
pub struct SignBounds {
    pub above_zero: bool,
    pub zero: bool,
    pub below_zero: bool,
}

pub open spec fn signs(above_zero: bool, zero: bool, below_zero: bool) -> SignBounds {
    SignBounds { above_zero, zero, below_zero }
}

/// The union of two spectra; one that reaches both sides of zero crosses it.
pub open spec fn signs_merge(a: SignBounds, b: SignBounds) -> SignBounds {
    let above_zero = a.above_zero || b.above_zero;
    let below_zero = a.below_zero || b.below_zero;
    SignBounds { above_zero, zero: a.zero || b.zero || (above_zero && below_zero), below_zero }
}

pub open spec fn signs_of_value(v: int) -> SignBounds {
    if v == 0 {
        signs(false, true, false)
    } else if v > 0 {
        signs(true, false, false)
    } else {
        signs(false, false, true)
    }
}

/// An endpoint's sign; an open endpoint at zero contributes no sign at all.
pub open spec fn signs_of_bound(b: Bound<int>) -> SignBounds {
    if b.value == 0 {
        if b.bound_type == BoundType::Inclusive {
            signs(false, true, false)
        } else {
            signs(false, false, false)
        }
    } else if b.value > 0 {
        signs(true, false, false)
    } else {
        signs(false, false, true)
    }
}

/// The signs over a pair of optional endpoints: a missing lower end reaches
/// below zero, a missing upper end above it.
pub open spec fn signs_of_bounds(
    lower: Option<Bound<int>>,
    upper: Option<Bound<int>>,
) -> SignBounds {
    let left = match lower {
        Some(b) => signs_of_bound(b),
        None => signs(false, false, true),
    };
    let right = match upper {
        Some(b) => signs_of_bound(b),
        None => signs(true, false, false),
    };
    signs_merge(left, right)
}

impl SignBounds {
    pub fn from_bounds<T: Scalar>(a: &Option<Bound<T>>, b: &Option<Bound<T>>) -> (r: SignBounds)
        ensures
            r == signs_of_bounds(opt_view(*a), opt_view(*b)),
    {
        let left = match a {
            Some(x) => Self::from_bound(x),
            None => SignBounds::below_zero(),
        };
        let right = match b {
            Some(y) => Self::from_bound(y),
            None => SignBounds::above_zero(),
        };
        left.merge(&right)
    }

    pub fn from_value<T: Scalar>(value: &T) -> (r: SignBounds)
        ensures
            r == signs_of_value(value.to_int()),
    {
        match value.compare(&T::zero()) {
            Ordering::Equal => SignBounds::zero(),
            Ordering::Greater => SignBounds::above_zero(),
            Ordering::Less => SignBounds::below_zero(),
        }
    }

    pub fn from_bound<T: Scalar>(bound: &Bound<T>) -> (r: SignBounds)
        ensures
            r == signs_of_bound(bound@),
    {
        match bound.value.compare(&T::zero()) {
            Ordering::Equal => {
                if bound.bound_type == BoundType::Inclusive {
                    SignBounds::zero()
                } else {
                    SignBounds::none()
                }
            },
            Ordering::Greater => SignBounds::above_zero(),
            Ordering::Less => SignBounds::below_zero(),
        }
    }

    pub fn zero() -> (r: SignBounds)
        ensures
            r == signs(false, true, false),
    {
        SignBounds { above_zero: false, zero: true, below_zero: false }
    }

    pub fn above_zero() -> (r: SignBounds)
        ensures
            r == signs(true, false, false),
    {
        SignBounds { above_zero: true, zero: false, below_zero: false }
    }

    pub fn below_zero() -> (r: SignBounds)
        ensures
            r == signs(false, false, true),
    {
        SignBounds { above_zero: false, zero: false, below_zero: true }
    }

    pub fn none() -> (r: SignBounds)
        ensures
            r == signs(false, false, false),
    {
        SignBounds { above_zero: false, zero: false, below_zero: false }
    }

    pub fn merge(&self, other: &SignBounds) -> (r: SignBounds)
        ensures
            r == signs_merge(*self, *other),
    {
        let above_zero = self.above_zero || other.above_zero;
        let below_zero = self.below_zero || other.below_zero;
        let zero = self.zero || other.zero || (above_zero && below_zero);
        SignBounds { above_zero, below_zero, zero }
    }
}

} // verus!
