use vstd::prelude::*;

verus! {

/// How two intervals, or an interval and a value, are placed: wholly below,
/// wholly above, or sharing at least one point.
#[derive(Debug, PartialEq, Eq, Structural, Clone, Copy)]
pub enum Comparison {
    Less,
    Greater,
    Intersects,
}

/// The comparison seen from the other side.
pub open spec fn comparison_neg(c: Comparison) -> Comparison {
    match c {
        Comparison::Less => Comparison::Greater,
        Comparison::Intersects => Comparison::Intersects,
        Comparison::Greater => Comparison::Less,
    }
}

impl Comparison {
    /// Swaps `Less` and `Greater` and keeps `Intersects`.
    pub fn negate(self) -> (r: Comparison)
        ensures
            r == comparison_neg(self),
    {
        match self {
            Comparison::Less => Comparison::Greater,
            Comparison::Intersects => Comparison::Intersects,
            Comparison::Greater => Comparison::Less,
        }
    }
}

} // verus!
