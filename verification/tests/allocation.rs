use subscribe::allocation::{AllocationRatio, Shares};

#[test]
fn reference_ratio_is_six_four_two_of_twelve() {
    let ratio = AllocationRatio::reference();
    assert_eq!(ratio, AllocationRatio { retained: 6, first: 4, second: 2, whole: 12 });
    assert_eq!(AllocationRatio::new(6, 4, 2, 12), Some(ratio));
}

#[test]
fn ratio_must_add_up_to_one() {
    assert_eq!(AllocationRatio::new(6, 4, 2, 13), None);
    assert_eq!(AllocationRatio::new(6, 4, 3, 12), None);
    assert_eq!(AllocationRatio::new(0, 0, 0, 0), None);
    assert_eq!(AllocationRatio::new(u64::MAX, u64::MAX, 2, 0), None);
    assert_eq!(AllocationRatio::new(u64::MAX, 1, 0, 0), None);
    assert!(AllocationRatio::new(1, 0, 0, 1).is_some());
    assert!(AllocationRatio::new(u64::MAX - 1, 1, 0, u64::MAX).is_some());
}

#[test]
fn twelve_splits_into_six_four_two() {
    let shares = AllocationRatio::reference().allocate(12);
    assert_eq!(shares, Shares { retained: 6, first: 4, second: 2 });
}

#[test]
fn protocol_amount_splits_without_residue() {
    let shares = AllocationRatio::reference().allocate(12_000_000);
    assert_eq!(shares, Shares { retained: 6_000_000, first: 4_000_000, second: 2_000_000 });
}

#[test]
fn residue_stays_with_the_retained_share() {
    let shares = AllocationRatio::reference().allocate(13);
    assert_eq!(shares, Shares { retained: 7, first: 4, second: 2 });
    let shares = AllocationRatio::reference().allocate(11);
    assert_eq!(shares, Shares { retained: 7, first: 3, second: 1 });
}

#[test]
fn shares_add_up_for_large_amounts() {
    let ratio = AllocationRatio::new(1, u64::MAX - 2, 1, u64::MAX).unwrap();
    for amount in [0u64, 1, 12, u64::MAX - 1, u64::MAX] {
        let shares = ratio.allocate(amount);
        let sum = shares.retained as u128 + shares.first as u128 + shares.second as u128;
        assert_eq!(sum, amount as u128);
    }
    let shares = AllocationRatio::reference().allocate(u64::MAX);
    assert_eq!(shares.first, 6_148_914_691_236_517_205);
    assert_eq!(shares.second, 3_074_457_345_618_258_602);
    assert_eq!(shares.retained, 9_223_372_036_854_775_808);
}
