use bounds::{Bound, BoundType, Bounds, Comparison, Scalar, SignBounds};

fn inc<T>(v: T) -> Option<Bound<T>> {
    Some(Bound::inclusive(v))
}

fn exc<T>(v: T) -> Option<Bound<T>> {
    Some(Bound::exclusive(v))
}

fn samples() -> Vec<Bounds<i32>> {
    vec![
        Bounds::Exact(0),
        Bounds::Exact(2),
        Bounds::Exact(-3),
        Bounds::Range(inc(1), inc(3)),
        Bounds::Range(exc(1), exc(3)),
        Bounds::Range(inc(1), exc(3)),
        Bounds::Range(exc(3), inc(5)),
        Bounds::Range(inc(-2), inc(2)),
        Bounds::Range(None, exc(2)),
        Bounds::Range(None, inc(1)),
        Bounds::Range(inc(2), None),
        Bounds::Range(exc(3), None),
        Bounds::Range(None, None),
        Bounds::Range(inc(2), inc(2)),
    ]
}

#[test]
fn intersects_is_symmetric() {
    for a in samples() {
        for b in samples() {
            assert_eq!(a.intersects(&b), b.intersects(&a), "{:?} {:?}", a, b);
        }
    }
}

#[test]
fn negating_twice_gives_the_interval_back() {
    for a in samples() {
        assert_eq!(a.negate().negate(), a);
    }
    let wide = Bounds::Range(inc(i64::MIN + 1), exc(i64::MAX));
    assert_eq!(wide.negate().negate(), wide);
}

#[test]
fn compare_is_negated_by_swapping() {
    for a in samples() {
        for b in samples() {
            assert_eq!(a.compare_to(&b), b.compare_to(&a).negate(), "{:?} {:?}", a, b);
        }
    }
}

#[test]
fn compare_of_empty_ranges_at_one_point_is_greater_both_ways() {
    let a = Bounds::Range(inc(1), exc(1));
    assert_eq!(a.compare_to(&a), Comparison::Greater);
}

#[test]
fn merge_is_idempotent_and_commutative() {
    for a in samples() {
        assert_eq!(a.merge(a), a);
        for b in samples() {
            assert_eq!(a.merge(b), b.merge(a), "{:?} {:?}", a, b);
        }
    }
}

#[test]
fn size_is_not_negative_and_zero_for_exact() {
    for a in samples() {
        if let Some(s) = a.size() {
            assert!(s >= 0);
        }
    }
    assert_eq!(Bounds::Exact(7).size(), Some(0));
    assert_eq!(Bounds::Exact(-7i64).size(), Some(0));
    assert_eq!(Bounds::Range(inc(2u64), exc(10u64)).size(), Some(8));
}

#[test]
fn scenarios_of_intersection() {
    assert!(Bounds::Exact(42).intersects(&Bounds::Exact(42)));
    assert!(!Bounds::Exact(42).intersects(&Bounds::Exact(0)));
    assert!(!Bounds::Exact(1).intersects(&Bounds::Range(exc(1), exc(3))));
    assert!(Bounds::Exact(2).intersects(&Bounds::Range(exc(1), exc(3))));
}

#[test]
fn scenarios_of_size() {
    assert_eq!(Bounds::Range(inc(1), exc(3)).size(), Some(2));
    assert_eq!(Bounds::Range(inc(1), None).size(), None);
}

#[test]
fn scenario_of_multiplying_by_minus_one() {
    assert_eq!(
        Bounds::Exact(-1).multiply(Bounds::Range(inc(1), exc(3))),
        Bounds::Range(exc(-3), inc(-1))
    );
}

#[test]
fn scenarios_of_division() {
    assert_eq!(
        Bounds::Range(inc(2), exc(6)).divide(Bounds::Exact(2)),
        Some(Bounds::Range(inc(1), exc(3)))
    );
    assert_eq!(Bounds::Range(inc(1), inc(2)).divide(Bounds::Range(inc(-1), inc(1))), None);
}

#[test]
fn scenario_of_merging_a_point_below() {
    assert_eq!(Bounds::Range(inc(1), exc(3)).merge(Bounds::Exact(0)), Bounds::Range(inc(0), exc(3)));
}

#[test]
fn merge_of_point_and_full_range_is_the_full_range() {
    let full: Bounds<i32> = Bounds::Range(None, None);
    assert_eq!(Bounds::Exact(5).merge(full), full);
    assert_eq!(full.merge(Bounds::Exact(5)), full);
}

#[test]
fn merge_of_points() {
    assert_eq!(Bounds::Exact(4).merge(Bounds::Exact(4)), Bounds::Exact(4));
    assert_eq!(Bounds::Exact(4).merge(Bounds::Exact(1)), Bounds::Range(inc(1), inc(4)));
    assert_eq!(Bounds::Exact(1).merge(Bounds::Exact(4)), Bounds::Range(inc(1), inc(4)));
}

#[test]
fn merge_keeps_an_unbounded_side_unbounded() {
    let below = Bounds::Range(None, inc(5));
    let above = Bounds::Range(inc(0), None);
    assert_eq!(below.merge(Bounds::Range(inc(1), inc(2))), Bounds::Range(None, inc(5)));
    assert_eq!(Bounds::Range(inc(1), inc(9)).merge(below), Bounds::Range(None, inc(9)));
    assert_eq!(above.merge(Bounds::Range(inc(1), inc(9))), Bounds::Range(inc(0), None));
    assert_eq!(Bounds::Range(inc(-4), inc(2)).merge(above), Bounds::Range(inc(-4), None));
}

#[test]
fn merge_prefers_closed_ends_at_equal_values() {
    assert_eq!(
        Bounds::Range(exc(1), exc(3)).merge(Bounds::Range(inc(1), inc(3))),
        Bounds::Range(inc(1), inc(3))
    );
    assert_eq!(Bounds::Range(exc(1), exc(3)).merge(Bounds::Exact(3)), Bounds::Range(exc(1), inc(3)));
}

#[test]
fn division_of_unbounded_range_by_range_is_undefined() {
    assert_eq!(Bounds::Range(inc(1), None).divide(Bounds::Range(inc(1), inc(2))), None);
    assert_eq!(Bounds::Range(None, inc(1)).divide(Bounds::Range(inc(1), inc(2))), None);
}

#[test]
fn division_by_empty_range_open_at_zero_is_undefined() {
    assert_eq!(Bounds::Exact(3).divide(Bounds::Range(exc(0), exc(0))), None);
}

#[test]
fn division_by_zero_is_undefined() {
    assert_eq!(Bounds::Exact(0).divide(Bounds::Exact(0)), None);
    assert_eq!(Bounds::Range(inc(1), inc(2)).divide(Bounds::Exact(0)), None);
    assert_eq!(Bounds::Exact(1).divide(Bounds::Range(inc(0), inc(2))), None);
    assert_eq!(Bounds::Range(inc(1), inc(2)).divide(Bounds::Range(inc(-2), inc(0))), None);
}

#[test]
fn division_truncates_toward_zero() {
    assert_eq!(Bounds::Exact(7).divide(Bounds::Exact(2)), Some(Bounds::Exact(3)));
    assert_eq!(Bounds::Exact(-7).divide(Bounds::Exact(2)), Some(Bounds::Exact(-3)));
    assert_eq!(Bounds::Exact(7).divide(Bounds::Exact(-2)), Some(Bounds::Exact(-3)));
    assert_eq!(
        Bounds::Range(inc(-7), inc(7)).divide(Bounds::Exact(2)),
        Some(Bounds::Range(inc(-3), inc(3)))
    );
}

#[test]
fn division_of_bounded_range_by_range_merges_the_parts() {
    assert_eq!(
        Bounds::Range(inc(2), inc(6)).divide(Bounds::Range(inc(1), inc(2))),
        Some(Bounds::Range(inc(1), inc(6)))
    );
    assert_eq!(
        Bounds::Range(exc(2), inc(6)).divide(Bounds::Range(inc(1), inc(2))),
        Some(Bounds::Range(exc(1), inc(6)))
    );
}

#[test]
fn zero_times_anything_is_zero() {
    assert_eq!(Bounds::Exact(0).multiply(Bounds::<i32>::Range(None, None)), Bounds::Exact(0));
    assert_eq!(Bounds::<i32>::Range(None, None).multiply(Bounds::Exact(0)), Bounds::Exact(0));
    assert_eq!(Bounds::Exact(0).multiply(Bounds::Exact(9)), Bounds::Exact(0));
}

#[test]
fn range_products_take_the_extreme_candidates() {
    assert_eq!(
        Bounds::Range(inc(-2), inc(3)).multiply(Bounds::Range(inc(-4), exc(5))),
        Bounds::Range(inc(-12), exc(15))
    );
    assert_eq!(
        Bounds::Range(inc(-2), exc(-1)).multiply(Bounds::Range(inc(3), None)),
        Bounds::Range(None, exc(-3))
    );
    assert_eq!(
        Bounds::Range(exc(0), inc(2)).multiply(Bounds::Range(inc(1), None)),
        Bounds::Range(exc(0), None)
    );
}

#[test]
fn exact_arithmetic() {
    assert_eq!(Bounds::Exact(3).add(Bounds::Exact(4)), Bounds::Exact(7));
    assert_eq!(Bounds::Exact(3).subtract(Bounds::Exact(4)), Bounds::Exact(-1));
    assert_eq!(Bounds::Exact(3).multiply(Bounds::Exact(-4)), Bounds::Exact(-12));
}

#[test]
fn other_element_types() {
    assert_eq!(
        Bounds::Range(inc(4_000_000_000i64), exc(5_000_000_000i64)).add(Bounds::Exact(1i64)),
        Bounds::Range(inc(4_000_000_001i64), exc(5_000_000_001i64))
    );
    assert_eq!(
        Bounds::Range(inc(2u32), inc(6u32)).multiply(Bounds::Range(inc(1u32), exc(3u32))),
        Bounds::Range(inc(2u32), exc(18u32))
    );
    assert_eq!(
        Bounds::Range(inc(2u64), exc(9u64)).divide(Bounds::Exact(2u64)),
        Some(Bounds::Range(inc(1u64), exc(4u64)))
    );
    assert_eq!(Bounds::Exact(5u32).subtract(Bounds::Exact(0u32)), Bounds::Exact(5u32));
    assert_eq!(Bounds::Range(inc(1u32), inc(4u32)).size(), Some(3u32));
}

#[test]
fn scalar_operations() {
    assert_eq!(<i32 as Scalar>::zero(), 0);
    assert_eq!(7i32.divide(-2), -3);
    assert_eq!((-7i64).divide(2), -3);
    assert_eq!(9u32.subtract(4), 5);
    assert_eq!(3u64.multiply(5), 15);
    assert_eq!(4i32.negate(), -4);
    assert_eq!(0u32.negate(), 0);
    assert_eq!(2i64.compare(&5), std::cmp::Ordering::Less);
    assert_eq!(5u64.compare(&5), std::cmp::Ordering::Equal);
    assert_eq!(6u32.compare(&5), std::cmp::Ordering::Greater);
}

#[test]
fn compare_of_values_and_ranges() {
    assert_eq!(Bounds::Exact(1).compare_to(&Bounds::Exact(2)), Comparison::Less);
    assert_eq!(Bounds::Exact(3).compare_to(&Bounds::Exact(2)), Comparison::Greater);
    assert_eq!(Bounds::Exact(3).compare_to(&Bounds::Range(inc(1), exc(3))), Comparison::Greater);
    assert_eq!(Bounds::Exact(3).compare_to(&Bounds::Range(inc(1), inc(3))), Comparison::Intersects);
    assert_eq!(Bounds::Range(exc(1), inc(3)).compare_to(&Bounds::Exact(1)), Comparison::Greater);
    assert_eq!(Bounds::Range(inc(1), inc(3)).compare_to(&Bounds::Range(inc(3), inc(4))), Comparison::Intersects);
    assert_eq!(Bounds::Range(inc(1), exc(3)).compare_to(&Bounds::Range(inc(3), inc(4))), Comparison::Less);
    assert_eq!(Bounds::Range(None, None).compare_to(&Bounds::Exact(9)), Comparison::Intersects);
}

#[test]
fn comparison_negation() {
    assert_eq!(Comparison::Less.negate(), Comparison::Greater);
    assert_eq!(Comparison::Greater.negate(), Comparison::Less);
    assert_eq!(Comparison::Intersects.negate(), Comparison::Intersects);
}

#[test]
fn validity_check() {
    assert!(Bounds::Range(inc(1), exc(3)).is_valid());
    assert!(Bounds::Range(inc(3), exc(3)).is_valid());
    assert!(!Bounds::Range(inc(4), exc(3)).is_valid());
    assert!(Bounds::Range(inc(4), None).is_valid());
    assert!(Bounds::Exact(4).is_valid());
}

#[test]
fn endpoint_tie_breaks() {
    let closed = Bound::inclusive(2);
    let open = Bound::exclusive(2);
    assert!(closed.is_upper_bound_max(&open));
    assert!(!open.is_upper_bound_max(&closed));
    assert!(closed.is_lower_bound_min(&open));
    assert!(!open.is_lower_bound_min(&closed));
    assert_eq!(Bound::upper_bound_max(open, closed), closed);
    assert_eq!(Bound::lower_bound_min(open, closed), closed);
    assert_eq!(Bound::upper_bound_max(Bound::exclusive(5), closed), Bound::exclusive(5));
    assert_eq!(Bound::lower_bound_min(Bound::exclusive(5), closed), closed);
}

#[test]
fn endpoint_operations() {
    let a = Bound::inclusive(3);
    let b = Bound::exclusive(4);
    assert_eq!(a.add(b), Bound::exclusive(7));
    assert_eq!(a.add(Bound::inclusive(4)), Bound::inclusive(7));
    assert_eq!(a.multiply(b), Bound::exclusive(12));
    assert_eq!(Bound::inclusive(9).divide(Bound::inclusive(2)), Bound::inclusive(4));
    assert_eq!(b.negate(), Bound::exclusive(-4));
    assert_eq!(a.to_exclusive(), Bound::exclusive(3));
    assert_eq!(a.combine(Bound::inclusive(5), |x, y| x - y), Bound::inclusive(-2));
    assert_eq!(a.bound_type, BoundType::Inclusive);
}

#[test]
fn sign_spectra() {
    let below = SignBounds::below_zero();
    let above = SignBounds::above_zero();
    let merged = below.merge(&above);
    assert!(merged.zero && merged.above_zero && merged.below_zero);
    let z = SignBounds::zero().merge(&SignBounds::none());
    assert!(z.zero && !z.above_zero && !z.below_zero);

    let open_zero = SignBounds::from_bound(&Bound::exclusive(0));
    assert!(!open_zero.zero && !open_zero.above_zero && !open_zero.below_zero);
    assert!(SignBounds::from_bound(&Bound::inclusive(0)).zero);
    assert!(SignBounds::from_bound(&Bound::inclusive(-3)).below_zero);
    assert!(SignBounds::from_value(&5).above_zero);
    assert!(SignBounds::from_value(&0).zero);

    let unbounded = SignBounds::from_bounds::<i32>(&None, &None);
    assert!(unbounded.zero && unbounded.above_zero && unbounded.below_zero);
    let positive = SignBounds::from_bounds(&exc(0), &inc(2));
    assert!(positive.above_zero && !positive.zero && !positive.below_zero);
    let negative = SignBounds::from_bounds(&None, &exc(-1));
    assert!(negative.below_zero && !negative.zero && !negative.above_zero);
}

#[test]
fn half_open_range_from_std() {
    assert_eq!(Bounds::from(2..5), Bounds::Range(inc(2), exc(5)));
    assert_eq!(Bounds::range(Bound::inclusive(2), Bound::exclusive(5)), Bounds::from(2..5));
}
