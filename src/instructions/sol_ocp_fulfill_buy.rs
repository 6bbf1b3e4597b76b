use vstd::prelude::*;

use crate::errors::MMMErrorCode;
use crate::instructions::{
    buy_request_spec, check_fulfillment_access, fulfillment_access_spec, SolFulfillBuyArgs,
};
use crate::settlement::{
    fulfill_buy_spec, settle_fulfill_buy, BuyEnv, BuySettlement, FulfillRequest,
};
use crate::state::{Pool, Pubkey, SellState};

verus! {

/// A seller puts one transfer-restricted, royalty-enforced asset into a
/// pool, receiving at least `min_payment_amount`; the pool pays the
/// creators' royalty. These are the accounts the fulfillment reads, as
/// values.
#[derive(PartialEq, Eq, Clone, Copy, Debug)]
pub struct SolOcpFulfillBuy {
    pub payer: Pubkey,
    pub owner: Pubkey,
    pub cosigner: Pubkey,
    pub referral: Pubkey,
    pub pool: Pool,
    /// The address of the pool.
    pub pool_key: Pubkey,
    /// The balance of the pool's currency escrow.
    pub buyside_sol_escrow_lamports: u64,
    pub asset_mint: Pubkey,
    pub asset_supply: u64,
    pub asset_decimals: u8,
    /// The units of the asset in the seller's account.
    pub payer_asset_amount: u64,
    pub sell_state: SellState,
    /// The current unix time.
    pub now: i64,
    /// Whether the asset passed the pool's allowlist.
    pub allowlist_ok: bool,
    /// The royalty rate that the asset's metadata and policy set.
    pub royalty_bp: u16,
    /// The balance of the external liquidity account, where the pool uses one.
    pub shared_escrow_lamports: u64,
    /// The smallest balance an account may keep open with.
    pub min_rent: u64,
}

/// Whether the accounts describe one indivisible asset held by the seller,
/// and the request sells exactly that one.
pub open spec fn ocp_buy_params_ok(ctx: SolOcpFulfillBuy, asset_amount: u64) -> bool {
    ctx.asset_supply == 1 && ctx.asset_decimals == 0 && ctx.payer_asset_amount == 1 && asset_amount
        == 1
}

/// The outcome of the fulfillment: access checked first, then the asset's
/// shape, then the settlement.
pub open spec fn sol_ocp_fulfill_buy_spec(ctx: SolOcpFulfillBuy, args: SolFulfillBuyArgs) -> Result<
    (Pool, SellState, BuySettlement),
    MMMErrorCode,
> {
    match fulfillment_access_spec(ctx.pool, ctx.owner, ctx.cosigner, ctx.referral, ctx.now) {
        Err(e) => Err(e),
        Ok(_) => if !ocp_buy_params_ok(ctx, args.asset_amount) {
            Err(MMMErrorCode::InvalidOcpAssetParams)
        } else {
            fulfill_buy_spec(
                ctx.pool,
                ctx.sell_state,
                buy_request_spec(args),
                BuyEnv {
                    allowlist_ok: ctx.allowlist_ok,
                    royalty_bp: ctx.royalty_bp,
                    escrow_balance: ctx.buyside_sol_escrow_lamports,
                    seller_asset_amount: ctx.payer_asset_amount,
                    shared_escrow_balance: ctx.shared_escrow_lamports,
                    min_rent: ctx.min_rent,
                    pool_key: ctx.pool_key,
                    asset_mint: ctx.asset_mint,
                },
            )
        },
    }
}

/// Runs the fulfillment on the accounts' values; the pool and position
/// change only on success.
pub fn handler(ctx: &mut SolOcpFulfillBuy, args: &SolFulfillBuyArgs) -> (r: Result<BuySettlement, MMMErrorCode>)
    ensures
        match r {
            Ok(s) => sol_ocp_fulfill_buy_spec(*old(ctx), *args) == Ok::<
                (Pool, SellState, BuySettlement),
                MMMErrorCode,
            >((final(ctx).pool, final(ctx).sell_state, s)),
            Err(e) => sol_ocp_fulfill_buy_spec(*old(ctx), *args) == Err::<
                (Pool, SellState, BuySettlement),
                MMMErrorCode,
            >(e),
        },
        *final(ctx) == (SolOcpFulfillBuy {
            pool: final(ctx).pool,
            sell_state: final(ctx).sell_state,
            ..*old(ctx)
        }),
        r is Err ==> *final(ctx) == *old(ctx),
{
    if let Err(e) = check_fulfillment_access(&ctx.pool, &ctx.owner, &ctx.cosigner, &ctx.referral, ctx.now) {
        return Err(e);
    }
    if !(ctx.asset_supply == 1 && ctx.asset_decimals == 0 && ctx.payer_asset_amount == 1
        && args.asset_amount == 1) {
        return Err(MMMErrorCode::InvalidOcpAssetParams);
    }
    let req = FulfillRequest {
        asset_amount: args.asset_amount,
        payment_bound: args.min_payment_amount,
        maker_fee_bp: args.maker_fee_bp,
        taker_fee_bp: args.taker_fee_bp,
    };
    let env = BuyEnv {
        allowlist_ok: ctx.allowlist_ok,
        royalty_bp: ctx.royalty_bp,
        escrow_balance: ctx.buyside_sol_escrow_lamports,
        seller_asset_amount: ctx.payer_asset_amount,
        shared_escrow_balance: ctx.shared_escrow_lamports,
        min_rent: ctx.min_rent,
        pool_key: ctx.pool_key,
        asset_mint: ctx.asset_mint,
    };
    let mut pool = ctx.pool;
    let mut sell_state = ctx.sell_state;
    let r = settle_fulfill_buy(&mut pool, &mut sell_state, req, env);
    ctx.pool = pool;
    ctx.sell_state = sell_state;
    r
}

} // verus!
