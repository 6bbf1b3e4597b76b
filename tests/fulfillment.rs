use mmm::constants::{ALLOWLIST_KIND_ANY, ALLOWLIST_KIND_MINT, CURVE_KIND_LINEAR};
use mmm::errors::MMMErrorCode;
use mmm::instructions::ext_fulfill_sell::{self, ExtSolFulfillSell};
use mmm::instructions::sol_ocp_fulfill_buy::{self, SolOcpFulfillBuy};
use mmm::instructions::sol_ocp_fulfill_sell::{self, SolOcpFulfillSell, SolOcpFulfillSellArgs};
use mmm::instructions::update_allowlists::{self, UpdateAllowlists, UpdateAllowlistsArgs};
use mmm::instructions::{SolFulfillBuyArgs, SolFulfillSellArgs};
use mmm::state::{Allowlist, Pool, Pubkey, SellState};

const MIN_RENT: u64 = 890_880;

fn key(b: u8) -> Pubkey {
    Pubkey { bytes: [b; 32] }
}

fn zero() -> Pubkey {
    Pubkey { bytes: [0; 32] }
}

fn base_pool() -> Pool {
    Pool {
        spot_price: 1_000_000,
        curve_type: CURVE_KIND_LINEAR,
        curve_delta: 10_000,
        reinvest_fulfill_buy: false,
        reinvest_fulfill_sell: false,
        expiry: 0,
        lp_fee_bp: 200,
        referral: key(3),
        cosigner_annotation: [7; 32],
        sellside_asset_amount: 1,
        lp_fee_earned: 0,
        owner: key(1),
        cosigner: key(2),
        uuid: key(4),
        payment_mint: zero(),
        allowlists: [Allowlist { kind: 0, value: zero() }; 6],
        buyside_payment_amount: 0,
        shared_escrow_account: zero(),
        shared_escrow_count: 0,
    }
}

fn position(amount: u64) -> SellState {
    SellState {
        pool: key(5),
        pool_owner: key(1),
        asset_mint: key(6),
        asset_amount: amount,
        cosigner_annotation: [7; 32],
    }
}

fn ext_ctx(pool: Pool) -> ExtSolFulfillSell {
    ExtSolFulfillSell {
        payer: key(8),
        owner: key(1),
        cosigner: key(2),
        referral: key(3),
        pool,
        buyside_sol_escrow_lamports: 0,
        asset_mint: key(6),
        sellside_escrow_token_amount: 1,
        sell_state: position(1),
        now: 1_700_000_000,
        allowlist_ok: true,
    }
}

fn sell_args(amount: u64, max: u64) -> SolFulfillSellArgs {
    SolFulfillSellArgs {
        asset_amount: amount,
        max_payment_amount: max,
        buyside_creator_royalty_bp: 0,
        allowlist_aux: None,
        maker_fee_bp: 0,
        taker_fee_bp: 0,
    }
}

fn ocp_buy_ctx(pool: Pool) -> SolOcpFulfillBuy {
    SolOcpFulfillBuy {
        payer: key(8),
        owner: key(1),
        cosigner: key(2),
        referral: key(3),
        pool,
        pool_key: key(5),
        buyside_sol_escrow_lamports: 0,
        asset_mint: key(6),
        asset_supply: 1,
        asset_decimals: 0,
        payer_asset_amount: 1,
        sell_state: position(0),
        now: 1_700_000_000,
        allowlist_ok: true,
        royalty_bp: 0,
        shared_escrow_lamports: 0,
        min_rent: MIN_RENT,
    }
}

fn buy_args(min: u64) -> SolFulfillBuyArgs {
    SolFulfillBuyArgs {
        asset_amount: 1,
        min_payment_amount: min,
        allowlist_aux: None,
        maker_fee_bp: 0,
        taker_fee_bp: 0,
    }
}

fn shared_pool() -> Pool {
    Pool {
        lp_fee_bp: 0,
        sellside_asset_amount: 0,
        shared_escrow_account: key(9),
        shared_escrow_count: 5,
        ..base_pool()
    }
}

#[test]
fn buyer_buys_one_unit_from_linear_pool() {
    let mut ctx = ext_ctx(base_pool());
    let s = ext_fulfill_sell::handler(&mut ctx, &sell_args(1, 1_020_000)).unwrap();
    assert_eq!(s.fees.total_price, 1_000_000);
    assert_eq!(s.fees.lp_fee, 20_000);
    assert_eq!(s.fees.next_price, 990_000);
    assert_eq!(s.payment_to_pool, 1_000_000);
    assert!(!s.pay_to_escrow);
    assert_eq!(s.payment_amount, 1_020_000);
    assert!(s.close_asset_escrow);
    assert!(s.close_sell_state);
    assert!(s.close_pool);
    assert_eq!(ctx.pool.spot_price, 990_000);
    assert_eq!(ctx.pool.sellside_asset_amount, 0);
    assert_eq!(ctx.pool.lp_fee_earned, 20_000);
    assert_eq!(ctx.sell_state.asset_amount, 0);
}

#[test]
fn buyer_bound_equal_to_payment_succeeds() {
    let mut ctx = ext_ctx(base_pool());
    assert!(ext_fulfill_sell::handler(&mut ctx, &sell_args(1, 1_020_000)).is_ok());
}

#[test]
fn buyer_bound_one_below_payment_fails_and_changes_nothing() {
    let mut ctx = ext_ctx(base_pool());
    let before = ctx;
    assert_eq!(
        ext_fulfill_sell::handler(&mut ctx, &sell_args(1, 1_019_999)),
        Err(MMMErrorCode::InvalidRequestedPrice)
    );
    assert_eq!(ctx, before);
}

#[test]
fn zero_units_fail() {
    let mut ctx = ext_ctx(base_pool());
    assert_eq!(
        ext_fulfill_sell::handler(&mut ctx, &sell_args(0, u64::MAX)),
        Err(MMMErrorCode::NumericOverflow)
    );
}

#[test]
fn reinvested_proceeds_fund_the_escrow() {
    let pool = Pool { reinvest_fulfill_sell: true, sellside_asset_amount: 2, ..base_pool() };
    let mut ctx = ext_ctx(pool);
    ctx.sell_state = position(2);
    ctx.sellside_escrow_token_amount = 2;
    ctx.buyside_sol_escrow_lamports = 5;
    let s = ext_fulfill_sell::handler(&mut ctx, &sell_args(1, u64::MAX)).unwrap();
    assert!(s.pay_to_escrow);
    assert!(!s.close_asset_escrow);
    assert!(!s.close_sell_state);
    assert!(!s.close_pool);
    assert_eq!(ctx.pool.buyside_payment_amount, 1_000_005);
    assert_eq!(ctx.sell_state.asset_amount, 1);
}

#[test]
fn maker_rebate_and_taker_fee_on_buy() {
    let mut ctx = ext_ctx(base_pool());
    let args = SolFulfillSellArgs { maker_fee_bp: -100, taker_fee_bp: 250, ..sell_args(1, u64::MAX) };
    let s = ext_fulfill_sell::handler(&mut ctx, &args).unwrap();
    assert_eq!(s.fees.maker_fee, -10_000);
    assert_eq!(s.fees.taker_fee, 25_000);
    assert_eq!(s.fees.referral_fee, 15_000);
    assert_eq!(s.payment_to_pool, 1_010_000);
    assert_eq!(s.payment_amount, 1_045_000);
}

#[test]
fn access_errors() {
    let mut c = ext_ctx(base_pool());
    c.cosigner = key(1);
    assert_eq!(ext_fulfill_sell::handler(&mut c, &sell_args(1, u64::MAX)), Err(MMMErrorCode::InvalidCosigner));
    let mut c = ext_ctx(base_pool());
    c.referral = key(30);
    assert_eq!(ext_fulfill_sell::handler(&mut c, &sell_args(1, u64::MAX)), Err(MMMErrorCode::InvalidReferral));
    let mut c = ext_ctx(base_pool());
    c.owner = key(10);
    assert_eq!(ext_fulfill_sell::handler(&mut c, &sell_args(1, u64::MAX)), Err(MMMErrorCode::InvalidOwner));
    let mut c = ext_ctx(base_pool());
    c.cosigner = key(20);
    assert_eq!(ext_fulfill_sell::handler(&mut c, &sell_args(1, u64::MAX)), Err(MMMErrorCode::InvalidCosigner));
    let mut c = ext_ctx(Pool { payment_mint: key(11), ..base_pool() });
    assert_eq!(ext_fulfill_sell::handler(&mut c, &sell_args(1, u64::MAX)), Err(MMMErrorCode::InvalidPaymentMint));
    let mut c = ext_ctx(Pool { expiry: 1_600_000_000, ..base_pool() });
    assert_eq!(ext_fulfill_sell::handler(&mut c, &sell_args(1, u64::MAX)), Err(MMMErrorCode::Expired));
    let mut c = ext_ctx(Pool { expiry: 1_800_000_000, ..base_pool() });
    assert!(ext_fulfill_sell::handler(&mut c, &sell_args(1, u64::MAX)).is_ok());
}

#[test]
fn settlement_errors() {
    let mut c = ext_ctx(base_pool());
    c.allowlist_ok = false;
    assert_eq!(ext_fulfill_sell::handler(&mut c, &sell_args(1, u64::MAX)), Err(MMMErrorCode::InvalidAllowLists));
    let mut c = ext_ctx(base_pool());
    c.sellside_escrow_token_amount = 0;
    assert_eq!(ext_fulfill_sell::handler(&mut c, &sell_args(1, u64::MAX)), Err(MMMErrorCode::NotEnoughBalance));
    let mut c = ext_ctx(base_pool());
    let args = SolFulfillSellArgs { buyside_creator_royalty_bp: 10_001, ..sell_args(1, u64::MAX) };
    assert_eq!(ext_fulfill_sell::handler(&mut c, &args), Err(MMMErrorCode::InvalidBP));
    let mut c = ext_ctx(Pool { lp_fee_bp: 10_001, ..base_pool() });
    assert_eq!(ext_fulfill_sell::handler(&mut c, &sell_args(1, u64::MAX)), Err(MMMErrorCode::InvalidLPFee));
    let mut c = ext_ctx(Pool { curve_type: 9, ..base_pool() });
    assert_eq!(ext_fulfill_sell::handler(&mut c, &sell_args(1, u64::MAX)), Err(MMMErrorCode::InvalidCurveType));
    let mut c = ext_ctx(Pool { sellside_asset_amount: 0, ..base_pool() });
    assert_eq!(ext_fulfill_sell::handler(&mut c, &sell_args(1, u64::MAX)), Err(MMMErrorCode::NumericOverflow));
}

#[test]
fn ocp_buyer_pays_royalty_on_top() {
    let ctx = ext_ctx(base_pool());
    let mut c = SolOcpFulfillSell {
        payer: ctx.payer,
        owner: ctx.owner,
        cosigner: ctx.cosigner,
        referral: ctx.referral,
        pool: ctx.pool,
        buyside_sol_escrow_lamports: 0,
        asset_mint: ctx.asset_mint,
        asset_supply: 1,
        asset_decimals: 0,
        sellside_escrow_token_amount: 1,
        sell_state: position(1),
        now: ctx.now,
        allowlist_ok: true,
        royalty_bp: 500,
    };
    let args = SolOcpFulfillSellArgs {
        asset_amount: 1,
        max_payment_amount: 1_070_000,
        allowlist_aux: None,
        maker_fee_bp: 0,
        taker_fee_bp: 0,
    };
    let s = sol_ocp_fulfill_sell::handler(&mut c, &args).unwrap();
    assert_eq!(s.fees.royalty, 50_000);
    assert_eq!(s.payment_amount, 1_070_000);
    let mut c2 = SolOcpFulfillSell { pool: base_pool(), sell_state: position(1), ..c };
    let two = SolOcpFulfillSellArgs { asset_amount: 2, ..args };
    assert_eq!(sol_ocp_fulfill_sell::handler(&mut c2, &two), Err(MMMErrorCode::InvalidOcpAssetParams));
}

#[test]
fn seller_sells_with_royalty_and_lp_fee() {
    let pool = Pool { sellside_asset_amount: 0, ..base_pool() };
    let mut c = ocp_buy_ctx(pool);
    c.buyside_sol_escrow_lamports = 2_000_000;
    c.royalty_bp = 500;
    let s = sol_ocp_fulfill_buy::handler(&mut c, &buy_args(934_581)).unwrap();
    assert_eq!(s.fees.total_price, 1_000_000);
    assert_eq!(s.fees.next_price, 1_010_000);
    assert_eq!(s.fees.seller_receives, 934_579);
    assert_eq!(s.fees.lp_fee, 18_691);
    assert_eq!(s.royalty_paid, 46_728);
    assert_eq!(s.payment_amount, 934_581);
    assert_eq!(s.shared_withdrawal, 0);
    assert!(!s.close_escrow);
    assert!(s.close_sell_state);
    assert!(!s.close_pool);
    assert_eq!(c.pool.buyside_payment_amount, 1_000_000);
    assert_eq!(c.pool.spot_price, 1_010_000);
    assert_eq!(c.pool.lp_fee_earned, 18_691);
}

#[test]
fn seller_bound_one_above_payment_fails() {
    let pool = Pool { sellside_asset_amount: 0, ..base_pool() };
    let mut c = ocp_buy_ctx(pool);
    c.buyside_sol_escrow_lamports = 2_000_000;
    c.royalty_bp = 500;
    let before = c;
    assert_eq!(
        sol_ocp_fulfill_buy::handler(&mut c, &buy_args(934_582)),
        Err(MMMErrorCode::InvalidRequestedPrice)
    );
    assert_eq!(c, before);
}

#[test]
fn seller_into_unfunded_pool_fails() {
    let mut c = ocp_buy_ctx(Pool { lp_fee_bp: 0, ..base_pool() });
    c.buyside_sol_escrow_lamports = 999_999;
    assert_eq!(sol_ocp_fulfill_buy::handler(&mut c, &buy_args(0)), Err(MMMErrorCode::NotEnoughBalance));
}

#[test]
fn seller_reinvest_opens_position() {
    let pool = Pool { reinvest_fulfill_buy: true, lp_fee_bp: 0, sellside_asset_amount: 0, ..base_pool() };
    let mut c = ocp_buy_ctx(pool);
    c.buyside_sol_escrow_lamports = 1_000_000;
    c.sell_state = SellState {
        pool: zero(),
        pool_owner: zero(),
        asset_mint: zero(),
        asset_amount: 0,
        cosigner_annotation: [0; 32],
    };
    let s = sol_ocp_fulfill_buy::handler(&mut c, &buy_args(1_000_000)).unwrap();
    assert!(s.asset_to_escrow);
    assert!(!s.close_sell_state);
    assert!(!s.close_pool);
    assert_eq!(c.pool.sellside_asset_amount, 1);
    assert_eq!(c.sell_state.asset_amount, 1);
    assert_eq!(c.sell_state.pool, key(5));
    assert_eq!(c.sell_state.pool_owner, key(1));
    assert_eq!(c.sell_state.asset_mint, key(6));
    assert_eq!(c.sell_state.cosigner_annotation, [7; 32]);
    assert_eq!(c.pool.buyside_payment_amount, 0);
}

#[test]
fn seller_dust_left_in_escrow_is_closed() {
    let mut c = ocp_buy_ctx(Pool { lp_fee_bp: 0, sellside_asset_amount: 0, ..base_pool() });
    c.buyside_sol_escrow_lamports = 1_000_100;
    let s = sol_ocp_fulfill_buy::handler(&mut c, &buy_args(0)).unwrap();
    assert!(s.close_escrow);
    assert!(s.close_pool);
    assert_eq!(c.pool.buyside_payment_amount, 0);
}

#[test]
fn shared_liquidity_sale_decrements_count() {
    let mut c = ocp_buy_ctx(shared_pool());
    c.shared_escrow_lamports = 5_000_000;
    let s = sol_ocp_fulfill_buy::handler(&mut c, &buy_args(1_000_000)).unwrap();
    assert_eq!(s.shared_withdrawal, 1_000_000);
    assert_eq!(s.shared_sweep, 0);
    assert!(s.close_escrow);
    assert_eq!(c.pool.shared_escrow_count, 4);
    assert_eq!(c.pool.buyside_payment_amount, 0);
}

#[test]
fn shared_liquidity_remainder_is_swept_back() {
    let mut c = ocp_buy_ctx(shared_pool());
    c.shared_escrow_lamports = 5_000_000;
    c.buyside_sol_escrow_lamports = 2_000_000;
    let s = sol_ocp_fulfill_buy::handler(&mut c, &buy_args(1_000_000)).unwrap();
    assert_eq!(s.shared_sweep, 2_000_000);
    assert!(!s.close_escrow);
    assert_eq!(c.pool.buyside_payment_amount, 0);
}

#[test]
fn shared_liquidity_failure_keeps_count() {
    let mut c = ocp_buy_ctx(shared_pool());
    c.shared_escrow_lamports = 999_999;
    assert_eq!(sol_ocp_fulfill_buy::handler(&mut c, &buy_args(0)), Err(MMMErrorCode::NotEnoughBalance));
    assert_eq!(c.pool.shared_escrow_count, 5);
    let mut c = ocp_buy_ctx(shared_pool());
    c.shared_escrow_lamports = 5_000_000;
    assert_eq!(
        sol_ocp_fulfill_buy::handler(&mut c, &buy_args(1_000_001)),
        Err(MMMErrorCode::InvalidRequestedPrice)
    );
    assert_eq!(c.pool.shared_escrow_count, 5);
}

#[test]
fn ocp_seller_must_hold_exactly_one() {
    let mut c = ocp_buy_ctx(base_pool());
    c.payer_asset_amount = 2;
    assert_eq!(sol_ocp_fulfill_buy::handler(&mut c, &buy_args(0)), Err(MMMErrorCode::InvalidOcpAssetParams));
}

#[test]
fn update_allowlists_replaces_rules() {
    let mut ctx = UpdateAllowlists { cosigner: key(2), owner: key(1), pool: base_pool() };
    let mut rules = [Allowlist { kind: 0, value: zero() }; 6];
    rules[0] = Allowlist { kind: ALLOWLIST_KIND_MINT, value: key(6) };
    rules[1] = Allowlist { kind: ALLOWLIST_KIND_ANY, value: zero() };
    assert_eq!(update_allowlists::handler(&mut ctx, UpdateAllowlistsArgs { allowlists: rules }), Ok(()));
    assert_eq!(ctx.pool.allowlists, rules);
}

#[test]
fn update_allowlists_rejects_bad_rules_and_signers() {
    let mut rules = [Allowlist { kind: 0, value: zero() }; 6];
    rules[3] = Allowlist { kind: ALLOWLIST_KIND_MINT, value: zero() };
    let mut ctx = UpdateAllowlists { cosigner: key(2), owner: key(1), pool: base_pool() };
    let before = ctx;
    assert_eq!(
        update_allowlists::handler(&mut ctx, UpdateAllowlistsArgs { allowlists: rules }),
        Err(MMMErrorCode::InvalidAllowLists)
    );
    assert_eq!(ctx, before);
    rules[3] = Allowlist { kind: 42, value: key(6) };
    assert_eq!(
        update_allowlists::handler(&mut ctx, UpdateAllowlistsArgs { allowlists: rules }),
        Err(MMMErrorCode::InvalidAllowLists)
    );
    let ok = [Allowlist { kind: 0, value: zero() }; 6];
    let mut wrong = UpdateAllowlists { cosigner: key(20), owner: key(1), pool: base_pool() };
    assert_eq!(
        update_allowlists::handler(&mut wrong, UpdateAllowlistsArgs { allowlists: ok }),
        Err(MMMErrorCode::InvalidCosigner)
    );
    let mut same = UpdateAllowlists { cosigner: key(1), owner: key(1), pool: base_pool() };
    assert_eq!(
        update_allowlists::handler(&mut same, UpdateAllowlistsArgs { allowlists: ok }),
        Err(MMMErrorCode::InvalidCosigner)
    );
    let mut other = UpdateAllowlists { cosigner: key(2), owner: key(10), pool: base_pool() };
    assert_eq!(
        update_allowlists::handler(&mut other, UpdateAllowlistsArgs { allowlists: ok }),
        Err(MMMErrorCode::InvalidOwner)
    );
}

#[test]
fn error_messages() {
    assert_eq!(MMMErrorCode::InvalidRequestedPrice.message(), "invalid requested price");
    assert_eq!(MMMErrorCode::NumericOverflow.message(), "numeric overflow");
}
