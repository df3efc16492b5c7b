use amm_pool::ErrorCode;
use amm_pool::Pool;

#[test]
fn initialize_sets_reserves_and_zero_supply() {
    let p = Pool::initialize_pool(1000, 1000);
    assert_eq!(p.reserve_a, 1000);
    assert_eq!(p.reserve_b, 1000);
    assert_eq!(p.total_claim_supply, 0);
}

#[test]
fn first_deposit_mints_the_sum_of_the_amounts() {
    let mut p = Pool::initialize_pool(1000, 1000);
    let minted = p.add_liquidity(500, 500);
    assert_eq!(minted, Ok(1000));
    assert_eq!(
        p,
        Pool { reserve_a: 1500, reserve_b: 1500, total_claim_supply: 1000 }
    );
}

#[test]
fn later_deposit_mints_the_smaller_entitlement() {
    let mut p = Pool { reserve_a: 1500, reserve_b: 1500, total_claim_supply: 1000 };
    let minted = p.add_liquidity(150, 15);
    // floor(150 * 1000 / 1500) = 100 against A, floor(15 * 1000 / 1500) = 10 against B.
    assert_eq!(minted, Ok(10));
    assert_eq!(
        p,
        Pool { reserve_a: 1650, reserve_b: 1515, total_claim_supply: 1010 }
    );
}

#[test]
fn swap_a_to_b_pays_the_floored_constant_product_output() {
    let mut p = Pool { reserve_a: 1500, reserve_b: 1500, total_claim_supply: 1000 };
    let out = p.swap(100, 0, true);
    // floor(1500 * 100 / 1600) = 93.
    assert_eq!(out, Ok(93));
    assert_eq!(
        p,
        Pool { reserve_a: 1600, reserve_b: 1407, total_claim_supply: 1000 }
    );
}

#[test]
fn swap_b_to_a_mirrors_the_direction() {
    let mut p = Pool { reserve_a: 1500, reserve_b: 1500, total_claim_supply: 1000 };
    let out = p.swap(100, 0, false);
    assert_eq!(out, Ok(93));
    assert_eq!(
        p,
        Pool { reserve_a: 1407, reserve_b: 1600, total_claim_supply: 1000 }
    );
}

#[test]
fn swap_past_the_slippage_floor_fails_and_changes_nothing() {
    let mut p = Pool { reserve_a: 1600, reserve_b: 1407, total_claim_supply: 1000 };
    let out = p.swap(100, 94, true);
    // floor(1407 * 100 / 1700) = 82 < 94.
    assert_eq!(out, Err(ErrorCode::SlippageExceeded));
    assert_eq!(
        p,
        Pool { reserve_a: 1600, reserve_b: 1407, total_claim_supply: 1000 }
    );
}

#[test]
fn swap_at_the_exact_slippage_floor_succeeds() {
    let mut p = Pool { reserve_a: 1500, reserve_b: 1500, total_claim_supply: 1000 };
    assert_eq!(p.swap(100, 93, true), Ok(93));
    let mut q = Pool { reserve_a: 1500, reserve_b: 1500, total_claim_supply: 1000 };
    assert_eq!(q.swap(100, 94, true), Err(ErrorCode::SlippageExceeded));
    assert_eq!(
        q,
        Pool { reserve_a: 1500, reserve_b: 1500, total_claim_supply: 1000 }
    );
}

#[test]
fn swap_never_lowers_the_reserve_product() {
    let mut p = Pool { reserve_a: 1500, reserve_b: 1500, total_claim_supply: 1000 };
    let before = p.reserve_a as u128 * p.reserve_b as u128;
    assert_eq!(p.swap(100, 0, true), Ok(93));
    let after = p.reserve_a as u128 * p.reserve_b as u128;
    assert!(after >= before);
}

#[test]
fn swap_of_zero_units_is_rejected() {
    let mut p = Pool { reserve_a: 1500, reserve_b: 1500, total_claim_supply: 1000 };
    assert_eq!(p.swap(0, 0, true), Err(ErrorCode::InvalidArgument));
    assert_eq!(
        p,
        Pool { reserve_a: 1500, reserve_b: 1500, total_claim_supply: 1000 }
    );
}

#[test]
fn swap_that_would_overflow_the_incoming_reserve_fails() {
    let mut p = Pool { reserve_a: u64::MAX, reserve_b: 1000, total_claim_supply: 500 };
    assert_eq!(p.swap(1, 0, true), Err(ErrorCode::ArithmeticOverflow));
    assert_eq!(
        p,
        Pool { reserve_a: u64::MAX, reserve_b: 1000, total_claim_supply: 500 }
    );
}

#[test]
fn swap_against_an_empty_pool_pays_nothing() {
    let mut p = Pool::initialize_pool(0, 0);
    assert_eq!(p.swap(5, 0, true), Ok(0));
    assert_eq!(p, Pool { reserve_a: 5, reserve_b: 0, total_claim_supply: 0 });
}

#[test]
fn deposit_overflowing_a_reserve_fails_and_changes_nothing() {
    let mut p = Pool::initialize_pool(u64::MAX, 1);
    assert_eq!(p.add_liquidity(1, 0), Err(ErrorCode::ArithmeticOverflow));
    assert_eq!(
        p,
        Pool { reserve_a: u64::MAX, reserve_b: 1, total_claim_supply: 0 }
    );
}

#[test]
fn deposit_overflowing_the_claim_supply_fails() {
    let mut p = Pool { reserve_a: 1, reserve_b: 1, total_claim_supply: u64::MAX };
    assert_eq!(p.add_liquidity(2, 2), Err(ErrorCode::ArithmeticOverflow));
    assert_eq!(
        p,
        Pool { reserve_a: 1, reserve_b: 1, total_claim_supply: u64::MAX }
    );
}

#[test]
fn deposit_against_an_emptied_reserve_with_claims_outstanding_fails() {
    let mut p = Pool { reserve_a: 0, reserve_b: 5, total_claim_supply: 5 };
    assert_eq!(p.add_liquidity(3, 3), Err(ErrorCode::DivisionByZero));
    assert_eq!(p, Pool { reserve_a: 0, reserve_b: 5, total_claim_supply: 5 });
}

#[test]
fn redeeming_all_claims_drains_both_reserves_exactly() {
    let mut p = Pool { reserve_a: 1600, reserve_b: 1407, total_claim_supply: 1000 };
    assert_eq!(p.remove_liquidity(1000), Ok((1600, 1407)));
    assert_eq!(p, Pool { reserve_a: 0, reserve_b: 0, total_claim_supply: 0 });
}

#[test]
fn partial_redemption_pays_the_floored_shares() {
    let mut p = Pool { reserve_a: 1600, reserve_b: 1407, total_claim_supply: 1000 };
    // floor(500 * 1600 / 1000) = 800, floor(500 * 1407 / 1000) = 703.
    assert_eq!(p.remove_liquidity(500), Ok((800, 703)));
    assert_eq!(
        p,
        Pool { reserve_a: 800, reserve_b: 704, total_claim_supply: 500 }
    );
}

#[test]
fn redeeming_from_an_empty_supply_fails() {
    let mut p = Pool::initialize_pool(1, 1);
    assert_eq!(p.remove_liquidity(0), Err(ErrorCode::DivisionByZero));
    assert_eq!(p, Pool { reserve_a: 1, reserve_b: 1, total_claim_supply: 0 });
}

#[test]
fn redeeming_more_claims_than_outstanding_fails() {
    let mut p = Pool { reserve_a: 1600, reserve_b: 1407, total_claim_supply: 1000 };
    assert_eq!(p.remove_liquidity(1001), Err(ErrorCode::InsufficientClaims));
    assert_eq!(
        p,
        Pool { reserve_a: 1600, reserve_b: 1407, total_claim_supply: 1000 }
    );
}

#[test]
fn claims_and_reserves_stay_consistent_across_a_session() {
    let consistent =
        |p: &Pool| (p.total_claim_supply == 0) == (p.reserve_a == 0 && p.reserve_b == 0);
    let mut p = Pool::initialize_pool(0, 0);
    assert!(consistent(&p));
    assert_eq!(p.add_liquidity(1000, 1000), Ok(2000));
    assert!(consistent(&p));
    assert_eq!(p.swap(100, 0, true), Ok(90));
    assert!(consistent(&p));
    assert_eq!(p.remove_liquidity(500), Ok((275, 227)));
    assert!(consistent(&p));
    assert_eq!(p.remove_liquidity(1500), Ok((825, 683)));
    assert!(consistent(&p));
    assert_eq!(p, Pool { reserve_a: 0, reserve_b: 0, total_claim_supply: 0 });
}
