use erc6909::U256;

#[test]
fn checked_add_carries_across_limbs() {
    let a = U256::new(0, u128::MAX);
    let b = U256::one();
    let sum = a.checked_add(b).unwrap();
    assert_eq!(sum, U256::new(1, 0));
}

#[test]
fn checked_add_rejects_overflow() {
    let max = U256::new(u128::MAX, u128::MAX);
    assert_eq!(max.checked_add(U256::one()), None);
    assert_eq!(max.checked_add(U256::zero()), Some(max));
}

#[test]
fn checked_sub_borrows_across_limbs() {
    let a = U256::new(1, 0);
    let b = U256::one();
    let diff = a.checked_sub(b).unwrap();
    assert_eq!(diff, U256::new(0, u128::MAX));
}

#[test]
fn checked_sub_rejects_underflow() {
    let a = U256::from_u64(5);
    let b = U256::from_u64(6);
    assert_eq!(a.checked_sub(b), None);
    assert_eq!(b.checked_sub(a), Some(U256::one()));
}

#[test]
fn lt_compares_by_value() {
    let small = U256::new(0, u128::MAX);
    let big = U256::new(1, 0);
    assert!(small.lt(big));
    assert!(!big.lt(small));
    assert!(!big.lt(big));
}

#[test]
fn is_zero_only_for_zero() {
    assert!(U256::zero().is_zero());
    assert!(!U256::one().is_zero());
    assert!(!U256::new(1, 0).is_zero());
}
