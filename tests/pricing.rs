use mmm::constants::{CURVE_KIND_EXP, CURVE_KIND_LINEAR};
use mmm::curve::get_total_price_and_next_price;
use mmm::errors::MMMErrorCode;
use mmm::state::{Allowlist, Direction, Pool, Pubkey};

fn key(b: u8) -> Pubkey {
    Pubkey { bytes: [b; 32] }
}

fn pool(curve_type: u8, spot: u64, delta: u64) -> Pool {
    Pool {
        spot_price: spot,
        curve_type,
        curve_delta: delta,
        reinvest_fulfill_buy: false,
        reinvest_fulfill_sell: false,
        expiry: 0,
        lp_fee_bp: 0,
        referral: key(3),
        cosigner_annotation: [0; 32],
        sellside_asset_amount: 0,
        lp_fee_earned: 0,
        owner: key(1),
        cosigner: key(2),
        uuid: key(4),
        payment_mint: Pubkey { bytes: [0; 32] },
        allowlists: [Allowlist { kind: 0, value: Pubkey { bytes: [0; 32] } }; 6],
        buyside_payment_amount: 0,
        shared_escrow_account: Pubkey { bytes: [0; 32] },
        shared_escrow_count: 0,
    }
}

#[test]
fn linear_buy_batch_is_arithmetic_series() {
    let p = pool(CURVE_KIND_LINEAR, 100, 10);
    assert_eq!(get_total_price_and_next_price(&p, 3, Direction::BuyerBuys), Ok((270, 70)));
}

#[test]
fn linear_sell_batch_is_arithmetic_series() {
    let p = pool(CURVE_KIND_LINEAR, 100, 10);
    assert_eq!(get_total_price_and_next_price(&p, 3, Direction::BuyerSells), Ok((330, 130)));
}

#[test]
fn linear_large_batch_matches_closed_form() {
    let p = pool(CURVE_KIND_LINEAR, 1_000_000, 7);
    let n: u64 = 1001;
    let expected = n * 1_000_000 - 7 * n * (n - 1) / 2;
    assert_eq!(
        get_total_price_and_next_price(&p, n, Direction::BuyerBuys),
        Ok((expected, 1_000_000 - 7 * n))
    );
}

#[test]
fn exponential_sell_batch_compounds() {
    let p = pool(CURVE_KIND_EXP, 10_000, 1_000);
    assert_eq!(get_total_price_and_next_price(&p, 3, Direction::BuyerSells), Ok((33_100, 13_310)));
}

#[test]
fn exponential_buy_batch_compounds() {
    let p = pool(CURVE_KIND_EXP, 10_000, 1_000);
    assert_eq!(get_total_price_and_next_price(&p, 3, Direction::BuyerBuys), Ok((27_100, 7_290)));
}

#[test]
fn exponential_rounds_each_unit_down() {
    let p = pool(CURVE_KIND_EXP, 3, 5_000);
    // 3, then 4 (4.5 rounded down), then 6; next 9.
    assert_eq!(get_total_price_and_next_price(&p, 3, Direction::BuyerSells), Ok((13, 9)));
}

#[test]
fn zero_delta_is_flat_for_both_kinds() {
    let l = pool(CURVE_KIND_LINEAR, 500, 0);
    let e = pool(CURVE_KIND_EXP, 500, 0);
    assert_eq!(get_total_price_and_next_price(&l, 4, Direction::BuyerBuys), Ok((2_000, 500)));
    assert_eq!(get_total_price_and_next_price(&e, 4, Direction::BuyerSells), Ok((2_000, 500)));
}

#[test]
fn zero_units_are_rejected() {
    let p = pool(CURVE_KIND_LINEAR, 100, 10);
    assert_eq!(
        get_total_price_and_next_price(&p, 0, Direction::BuyerBuys),
        Err(MMMErrorCode::NumericOverflow)
    );
    let e = pool(CURVE_KIND_EXP, 100, 10);
    assert_eq!(
        get_total_price_and_next_price(&e, 0, Direction::BuyerSells),
        Err(MMMErrorCode::NumericOverflow)
    );
}

#[test]
fn falling_below_zero_is_overflow() {
    let p = pool(CURVE_KIND_LINEAR, 100, 10);
    assert_eq!(get_total_price_and_next_price(&p, 10, Direction::BuyerBuys), Ok((550, 0)));
    assert_eq!(
        get_total_price_and_next_price(&p, 11, Direction::BuyerBuys),
        Err(MMMErrorCode::NumericOverflow)
    );
    let z = pool(CURVE_KIND_LINEAR, 0, 1);
    assert_eq!(
        get_total_price_and_next_price(&z, 1, Direction::BuyerBuys),
        Err(MMMErrorCode::NumericOverflow)
    );
}

#[test]
fn rising_past_max_is_overflow() {
    let p = pool(CURVE_KIND_LINEAR, u64::MAX - 5, 3);
    assert_eq!(
        get_total_price_and_next_price(&p, 2, Direction::BuyerSells),
        Err(MMMErrorCode::NumericOverflow)
    );
    let big = pool(CURVE_KIND_EXP, u64::MAX / 2, 10_000);
    assert_eq!(
        get_total_price_and_next_price(&big, 1, Direction::BuyerSells),
        Ok((u64::MAX / 2, u64::MAX - 1))
    );
    assert_eq!(
        get_total_price_and_next_price(&big, 2, Direction::BuyerSells),
        Err(MMMErrorCode::NumericOverflow)
    );
}

#[test]
fn unknown_curve_kind_is_rejected() {
    let p = pool(7, 100, 10);
    assert_eq!(
        get_total_price_and_next_price(&p, 1, Direction::BuyerBuys),
        Err(MMMErrorCode::InvalidCurveType)
    );
}

#[test]
fn round_trip_returns_linear_spot() {
    let p = pool(CURVE_KIND_LINEAR, 1_000, 25);
    let (_, mid) = get_total_price_and_next_price(&p, 4, Direction::BuyerBuys).unwrap();
    assert_eq!(mid, 900);
    let back_pool = Pool { spot_price: mid, ..p };
    let (_, back) = get_total_price_and_next_price(&back_pool, 4, Direction::BuyerSells).unwrap();
    assert_eq!(back, 1_000);
}

#[test]
fn round_trip_never_ends_above_exponential_spot() {
    let p = pool(CURVE_KIND_EXP, 1_000_003, 777);
    let (_, mid) = get_total_price_and_next_price(&p, 5, Direction::BuyerBuys).unwrap();
    assert!(mid < 1_000_003);
    let back_pool = Pool { spot_price: mid, ..p };
    let (_, back) = get_total_price_and_next_price(&back_pool, 5, Direction::BuyerSells).unwrap();
    assert!(back <= 1_000_003);
    assert!(back > mid);
}
