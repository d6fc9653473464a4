use freelance_escrow::uint::U256;

#[test]
fn zero_is_zero() {
    assert!(U256::zero().is_zero());
    assert_eq!(U256::zero(), U256 { limbs: [0, 0, 0, 0] });
    assert!(!U256::from_u64(1).is_zero());
    assert!(!U256 { limbs: [0, 0, 0, 1] }.is_zero());
    assert!(!U256 { limbs: [0, 1, 0, 0] }.is_zero());
}

#[test]
fn from_u64_fills_the_lowest_limb() {
    assert_eq!(U256::from_u64(0xdead_beef), U256 { limbs: [0xdead_beef, 0, 0, 0] });
    assert_eq!(U256::from_u64(u64::MAX), U256 { limbs: [u64::MAX, 0, 0, 0] });
}

#[test]
fn from_usize_and_back() {
    assert_eq!(U256::from_usize(42), U256::from_u64(42));
    assert_eq!(U256::from_usize(42).to_usize(), Some(42));
    assert_eq!(U256::from_usize(0).to_usize(), Some(0));
    assert_eq!(U256::from_usize(usize::MAX).to_usize(), Some(usize::MAX));
}

#[test]
fn to_usize_refuses_what_does_not_fit() {
    assert_eq!(U256 { limbs: [7, 1, 0, 0] }.to_usize(), None);
    assert_eq!(U256 { limbs: [7, 0, 1, 0] }.to_usize(), None);
    assert_eq!(U256 { limbs: [7, 0, 0, 1] }.to_usize(), None);
    assert_eq!(U256::max_value().to_usize(), None);
}

#[test]
fn max_value_has_all_bits_set() {
    assert_eq!(U256::max_value(), U256 { limbs: [u64::MAX; 4] });
}

#[test]
fn equality_looks_at_every_limb() {
    let a = U256 { limbs: [1, 2, 3, 4] };
    assert_eq!(a, U256 { limbs: [1, 2, 3, 4] });
    assert_ne!(a, U256 { limbs: [0, 2, 3, 4] });
    assert_ne!(a, U256 { limbs: [1, 0, 3, 4] });
    assert_ne!(a, U256 { limbs: [1, 2, 0, 4] });
    assert_ne!(a, U256 { limbs: [1, 2, 3, 0] });
}

#[test]
fn lt_orders_by_the_highest_limb_that_differs() {
    let small = U256 { limbs: [u64::MAX, u64::MAX, u64::MAX, 0] };
    let big = U256 { limbs: [0, 0, 0, 1] };
    assert!(small.lt(&big));
    assert!(!big.lt(&small));
    assert!(U256 { limbs: [9, 1, 5, 7] }.lt(&U256 { limbs: [0, 2, 5, 7] }));
    assert!(U256 { limbs: [9, 9, 4, 7] }.lt(&U256 { limbs: [0, 0, 5, 7] }));
    assert!(U256::from_u64(3).lt(&U256::from_u64(4)));
    assert!(!U256::from_u64(4).lt(&U256::from_u64(3)));
}

#[test]
fn lt_is_strict_and_le_is_not() {
    let a = U256 { limbs: [5, 6, 7, 8] };
    assert!(!a.lt(&a));
    assert!(a.le(&a));
    assert!(U256::zero().le(&U256::zero()));
    assert!(U256::zero().le(&U256::max_value()));
    assert!(!U256::max_value().le(&U256::zero()));
    assert!(U256::from_u64(3).le(&U256::from_u64(4)));
    assert!(!U256::from_u64(4).le(&U256::from_u64(3)));
}
