use staking::error::ErrorCode;
use staking::state::product::ProductMetadata;

const SIGNED_MAX: u64 = i64::MAX as u64;

#[test]
fn fold_of_a_negative_sum_is_a_negative_balance() {
    let mut product = ProductMetadata { bump: 0, last_update_at: 0, locked: 5, delta_locked: -6 };
    assert_eq!(product.update(1), Err(ErrorCode::NegativeBalance));
    assert_eq!(product, ProductMetadata { bump: 0, last_update_at: 1, locked: 5, delta_locked: -6 });
}

#[test]
fn fold_down_to_zero_succeeds() {
    let mut product = ProductMetadata { bump: 0, last_update_at: 0, locked: 5, delta_locked: -5 };
    assert_eq!(product.update(1), Ok(()));
    assert_eq!(product, ProductMetadata { bump: 0, last_update_at: 1, locked: 0, delta_locked: 0 });
}

#[test]
fn fold_past_the_signed_range_is_an_overflow() {
    let mut product =
        ProductMetadata { bump: 0, last_update_at: 0, locked: SIGNED_MAX, delta_locked: 1 };
    assert_eq!(product.update(1), Err(ErrorCode::GenericOverflow));
    assert_eq!(
        product,
        ProductMetadata { bump: 0, last_update_at: 1, locked: SIGNED_MAX, delta_locked: 1 }
    );
}

#[test]
fn fold_up_to_the_signed_maximum_succeeds() {
    let mut product =
        ProductMetadata { bump: 0, last_update_at: 0, locked: SIGNED_MAX - 1, delta_locked: 1 };
    assert_eq!(product.update(u64::MAX), Ok(()));
    assert_eq!(
        product,
        ProductMetadata { bump: 0, last_update_at: u64::MAX, locked: SIGNED_MAX, delta_locked: 0 }
    );
}

#[test]
fn fold_of_a_balance_beyond_the_signed_range_is_an_overflow() {
    let mut product =
        ProductMetadata { bump: 0, last_update_at: 0, locked: SIGNED_MAX + 1, delta_locked: -1 };
    assert_eq!(product.update(1), Err(ErrorCode::GenericOverflow));
    assert_eq!(
        product,
        ProductMetadata { bump: 0, last_update_at: 1, locked: SIGNED_MAX + 1, delta_locked: -1 }
    );

    let mut largest =
        ProductMetadata { bump: 0, last_update_at: 0, locked: u64::MAX, delta_locked: 0 };
    assert_eq!(largest.update(1), Err(ErrorCode::GenericOverflow));
}

#[test]
fn balance_beyond_the_signed_range_is_left_alone_within_its_epoch() {
    let mut product =
        ProductMetadata { bump: 0, last_update_at: 4, locked: u64::MAX, delta_locked: 0 };
    assert_eq!(product.update(4), Ok(()));
    assert_eq!(product.add_locking(1, 4), Ok(()));
    assert_eq!(
        product,
        ProductMetadata { bump: 0, last_update_at: 4, locked: u64::MAX, delta_locked: 1 }
    );
}

#[test]
fn lock_of_the_signed_maximum_succeeds() {
    let mut product = ProductMetadata::default();
    assert_eq!(product.add_locking(SIGNED_MAX, 0), Ok(()));
    assert_eq!(
        product,
        ProductMetadata { bump: 0, last_update_at: 0, locked: 0, delta_locked: i64::MAX }
    );
}

#[test]
fn lock_of_more_than_the_signed_maximum_is_an_overflow() {
    let mut product =
        ProductMetadata { bump: 0, last_update_at: 0, locked: 0, delta_locked: -10 };
    assert_eq!(product.add_locking(SIGNED_MAX + 1, 0), Err(ErrorCode::GenericOverflow));
    assert_eq!(product.delta_locked, -10);
    assert_eq!(product.add_locking(u64::MAX, 0), Err(ErrorCode::GenericOverflow));
    assert_eq!(product.delta_locked, -10);
}

#[test]
fn lock_that_overflows_the_delta_is_an_overflow() {
    let mut product = ProductMetadata { bump: 0, last_update_at: 2, locked: 0, delta_locked: 1 };
    assert_eq!(product.add_locking(SIGNED_MAX, 2), Err(ErrorCode::GenericOverflow));
    assert_eq!(product, ProductMetadata { bump: 0, last_update_at: 2, locked: 0, delta_locked: 1 });
    assert_eq!(product.add_locking(SIGNED_MAX - 1, 2), Ok(()));
    assert_eq!(product.delta_locked, i64::MAX);
}

#[test]
fn lock_after_a_refused_fold_reports_the_fold() {
    let mut product = ProductMetadata { bump: 0, last_update_at: 0, locked: 5, delta_locked: -6 };
    assert_eq!(product.add_locking(100, 1), Err(ErrorCode::NegativeBalance));
    assert_eq!(product, ProductMetadata { bump: 0, last_update_at: 1, locked: 5, delta_locked: -6 });
}

#[test]
fn unlock_after_a_refused_fold_reports_the_fold() {
    let mut product =
        ProductMetadata { bump: 0, last_update_at: 0, locked: SIGNED_MAX, delta_locked: 1 };
    assert_eq!(product.add_unlocking(1, 1), Err(ErrorCode::GenericOverflow));
    assert_eq!(
        product,
        ProductMetadata { bump: 0, last_update_at: 1, locked: SIGNED_MAX, delta_locked: 1 }
    );
}

#[test]
fn unlock_of_more_than_the_signed_maximum_is_an_overflow() {
    let mut product =
        ProductMetadata { bump: 0, last_update_at: 0, locked: u64::MAX, delta_locked: 0 };
    assert_eq!(product.add_unlocking(SIGNED_MAX + 1, 0), Err(ErrorCode::GenericOverflow));
    assert_eq!(product.delta_locked, 0);
}

#[test]
fn unlock_that_underflows_the_delta_is_an_overflow() {
    let mut product =
        ProductMetadata { bump: 0, last_update_at: 0, locked: SIGNED_MAX, delta_locked: -2 };
    assert_eq!(product.add_unlocking(SIGNED_MAX, 0), Err(ErrorCode::GenericOverflow));
    assert_eq!(product.delta_locked, -2);
}

#[test]
fn unlock_that_leaves_the_projection_too_large_is_an_overflow() {
    let mut product =
        ProductMetadata { bump: 0, last_update_at: 0, locked: SIGNED_MAX, delta_locked: 10 };
    assert_eq!(product.add_unlocking(5, 0), Err(ErrorCode::GenericOverflow));
    assert_eq!(
        product,
        ProductMetadata { bump: 0, last_update_at: 0, locked: SIGNED_MAX, delta_locked: 5 }
    );
    assert_eq!(product.add_unlocking(5, 0), Ok(()));
    assert_eq!(product.delta_locked, 0);
}

#[test]
fn unlock_against_a_balance_beyond_the_signed_range_is_an_overflow() {
    let mut product =
        ProductMetadata { bump: 0, last_update_at: 0, locked: SIGNED_MAX + 1, delta_locked: 0 };
    assert_eq!(product.add_unlocking(1, 0), Err(ErrorCode::GenericOverflow));
    assert_eq!(product.delta_locked, -1);
}

#[test]
fn unlock_of_everything_succeeds() {
    let mut product =
        ProductMetadata { bump: 0, last_update_at: 0, locked: SIGNED_MAX, delta_locked: 0 };
    assert_eq!(product.add_unlocking(SIGNED_MAX, 0), Ok(()));
    assert_eq!(product.delta_locked, -i64::MAX);
    assert_eq!(product.update(1), Ok(()));
    assert_eq!(product, ProductMetadata { bump: 0, last_update_at: 1, locked: 0, delta_locked: 0 });
}

#[test]
fn epochs_never_go_back() {
    let mut product = ProductMetadata::default();
    let epochs: [u64; 6] = [3, 3, 1, 8, 2, 8];
    let mut last: u64 = 0;
    for epoch in epochs {
        let _ = product.add_locking(1, epoch);
        assert!(product.last_update_at >= last);
        last = product.last_update_at;
    }
    assert_eq!(product, ProductMetadata { bump: 0, last_update_at: 8, locked: 2, delta_locked: 2 });
}

#[test]
fn lock_may_leave_a_projection_that_the_fold_refuses() {
    let mut product =
        ProductMetadata { bump: 0, last_update_at: 0, locked: SIGNED_MAX, delta_locked: 0 };
    assert_eq!(product.add_locking(1, 0), Ok(()));
    assert_eq!(
        product,
        ProductMetadata { bump: 0, last_update_at: 0, locked: SIGNED_MAX, delta_locked: 1 }
    );
    assert_eq!(product.update(1), Err(ErrorCode::GenericOverflow));
}
