use core::cmp::Ordering;
use vstd::prelude::*;

verus! {

/// Rust's integer division, which truncates toward zero, written with the
/// Euclidean division that `/` means on `int`.
pub open spec fn div_trunc(a: int, b: int) -> int {
    if a >= 0 {
        a / b
    } else {
        -((-a) / b)
    }
}

/// The three-way ordering of two integers.
pub open spec fn int_ordering(a: int, b: int) -> Ordering {
    if a < b {
        Ordering::Less
    } else if a == b {
        Ordering::Equal
    } else {
        Ordering::Greater
    }
}

/// The element type of an interval: a totally ordered number with zero and the
/// four operations. Each value stands for the integer `to_int()`, and each
/// operation computes on those integers exactly, provided that the result can
/// be held by the type.
pub trait Scalar: Copy + Sized {
    /// The integer that this value stands for.
    spec fn to_int(self) -> int;

    /// Whether the type can hold the integer `v`.
    spec fn in_range(v: int) -> bool;

    proof fn lemma_to_int_in_range(x: Self)
        ensures
            Self::in_range(x.to_int()),
    ;

    proof fn lemma_to_int_injective(x: Self, y: Self)
        requires
            x.to_int() == y.to_int(),
        ensures
            x == y,
    ;

    fn zero() -> (r: Self)
        ensures
            r.to_int() == 0,
    ;

    fn compare(&self, other: &Self) -> (r: Ordering)
        ensures
            r == int_ordering(self.to_int(), other.to_int()),
    ;

    fn add(self, other: Self) -> (r: Self)
        requires
            Self::in_range(self.to_int() + other.to_int()),
        ensures
            r.to_int() == self.to_int() + other.to_int(),
    ;

    fn subtract(self, other: Self) -> (r: Self)
        requires
            Self::in_range(self.to_int() - other.to_int()),
        ensures
            r.to_int() == self.to_int() - other.to_int(),
    ;

    fn multiply(self, other: Self) -> (r: Self)
        requires
            Self::in_range(self.to_int() * other.to_int()),
        ensures
            r.to_int() == self.to_int() * other.to_int(),
    ;

    fn divide(self, other: Self) -> (r: Self)
        requires
            other.to_int() != 0,
            Self::in_range(div_trunc(self.to_int(), other.to_int())),
        ensures
            r.to_int() == div_trunc(self.to_int(), other.to_int()),
    ;

    fn negate(self) -> (r: Self)
        requires
            Self::in_range(-self.to_int()),
        ensures
            r.to_int() == -self.to_int(),
    ;
}

impl Scalar for i32 {
    open spec fn to_int(self) -> int {
        self as int
    }

    open spec fn in_range(v: int) -> bool {
        i32::MIN <= v <= i32::MAX
    }

    proof fn lemma_to_int_in_range(x: i32) {
    }

    proof fn lemma_to_int_injective(x: i32, y: i32) {
    }

    fn zero() -> (r: i32) {
        0
    }

    fn compare(&self, other: &i32) -> (r: Ordering) {
        if *self < *other {
            Ordering::Less
        } else if *self == *other {
            Ordering::Equal
        } else {
            Ordering::Greater
        }
    }

    fn add(self, other: i32) -> (r: i32) {
        self + other
    }

    fn subtract(self, other: i32) -> (r: i32) {
        self - other
    }

    fn multiply(self, other: i32) -> (r: i32) {
        self * other
    }

    fn divide(self, other: i32) -> (r: i32) {
        proof {
            if self == i32::MIN && other == -1 {
                assert(div_trunc(self as int, other as int) == 0x8000_0000);
            }
        }
        self / other
    }

    fn negate(self) -> (r: i32) {
        -self
    }
}

impl Scalar for i64 {
    open spec fn to_int(self) -> int {
        self as int
    }

    open spec fn in_range(v: int) -> bool {
        i64::MIN <= v <= i64::MAX
    }

    proof fn lemma_to_int_in_range(x: i64) {
    }

    proof fn lemma_to_int_injective(x: i64, y: i64) {
    }

    fn zero() -> (r: i64) {
        0
    }

    fn compare(&self, other: &i64) -> (r: Ordering) {
        if *self < *other {
            Ordering::Less
        } else if *self == *other {
            Ordering::Equal
        } else {
            Ordering::Greater
        }
    }

    fn add(self, other: i64) -> (r: i64) {
        self + other
    }

    fn subtract(self, other: i64) -> (r: i64) {
        self - other
    }

    fn multiply(self, other: i64) -> (r: i64) {
        self * other
    }

    fn divide(self, other: i64) -> (r: i64) {
        proof {
            if self == i64::MIN && other == -1 {
                assert(div_trunc(self as int, other as int) == 0x8000_0000_0000_0000);
            }
        }
        self / other
    }

    fn negate(self) -> (r: i64) {
        -self
    }
}

impl Scalar for u32 {
    open spec fn to_int(self) -> int {
        self as int
    }

    open spec fn in_range(v: int) -> bool {
        0 <= v <= u32::MAX
    }

    proof fn lemma_to_int_in_range(x: u32) {
    }

    proof fn lemma_to_int_injective(x: u32, y: u32) {
    }

    fn zero() -> (r: u32) {
        0
    }

    fn compare(&self, other: &u32) -> (r: Ordering) {
        if *self < *other {
            Ordering::Less
        } else if *self == *other {
            Ordering::Equal
        } else {
            Ordering::Greater
        }
    }

    fn add(self, other: u32) -> (r: u32) {
        self + other
    }

    fn subtract(self, other: u32) -> (r: u32) {
        self - other
    }

    fn multiply(self, other: u32) -> (r: u32) {
        self * other
    }

    fn divide(self, other: u32) -> (r: u32) {
        self / other
    }

    fn negate(self) -> (r: u32) {
        0 - self
    }
}

impl Scalar for u64 {
    open spec fn to_int(self) -> int {
        self as int
    }

    open spec fn in_range(v: int) -> bool {
        0 <= v <= u64::MAX
    }

    proof fn lemma_to_int_in_range(x: u64) {
    }

    proof fn lemma_to_int_injective(x: u64, y: u64) {
    }

    fn zero() -> (r: u64) {
        0
    }

    fn compare(&self, other: &u64) -> (r: Ordering) {
        if *self < *other {
            Ordering::Less
        } else if *self == *other {
            Ordering::Equal
        } else {
            Ordering::Greater
        }
    }

    fn add(self, other: u64) -> (r: u64) {
        self + other
    }

    fn subtract(self, other: u64) -> (r: u64) {
        self - other
    }

    fn multiply(self, other: u64) -> (r: u64) {
        self * other
    }

    fn divide(self, other: u64) -> (r: u64) {
        self / other
    }

    fn negate(self) -> (r: u64) {
        0 - self
    }
}

} // verus!
