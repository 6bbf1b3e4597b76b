use vstd::prelude::*;

use crate::errors::MMMErrorCode;
use crate::instructions::{check_fulfillment_access, fulfillment_access_spec};
use crate::settlement::{
    fulfill_sell_spec, settle_fulfill_sell, FulfillRequest, SellEnv, SellSettlement,
};
use crate::state::{Pool, Pubkey, SellState};

verus! {

/// A buyer's request to take one transfer-restricted asset from a pool.
#[derive(PartialEq, Eq, Debug)]
pub struct SolOcpFulfillSellArgs {
    pub asset_amount: u64,
    pub max_payment_amount: u64,
    pub allowlist_aux: Option<String>,
    pub maker_fee_bp: i16,
    pub taker_fee_bp: i16,
}

/// A buyer takes a transfer-restricted, royalty-enforced asset from a pool,
/// paying at most `max_payment_amount` with the creators' royalty on top.
/// These are the accounts the fulfillment reads, as values.
#[derive(PartialEq, Eq, Clone, Copy, Debug)]
pub struct SolOcpFulfillSell {
    pub payer: Pubkey,
    pub owner: Pubkey,
    pub cosigner: Pubkey,
    pub referral: Pubkey,
    pub pool: Pool,
    /// The balance of the pool's currency escrow.
    pub buyside_sol_escrow_lamports: u64,
    pub asset_mint: Pubkey,
    pub asset_supply: u64,
    pub asset_decimals: u8,
    /// The units of the asset in the pool's asset escrow.
    pub sellside_escrow_token_amount: u64,
    pub sell_state: SellState,
    /// The current unix time.
    pub now: i64,
    /// Whether the asset passed the pool's allowlist.
    pub allowlist_ok: bool,
    /// The royalty rate that the asset's metadata and policy set.
    pub royalty_bp: u16,
}

/// Whether the accounts describe one indivisible asset held by the pool,
/// and the request asks for exactly that one.
pub open spec fn ocp_sell_params_ok(ctx: SolOcpFulfillSell, asset_amount: u64) -> bool {
    ctx.asset_supply == 1 && ctx.asset_decimals == 0 && ctx.sellside_escrow_token_amount == 1
        && asset_amount == 1
}

/// The outcome of the fulfillment: access checked first, then the asset's
/// shape, then the settlement with the royalty due.
pub open spec fn sol_ocp_fulfill_sell_spec(ctx: SolOcpFulfillSell, args: SolOcpFulfillSellArgs) -> Result<
    (Pool, SellState, SellSettlement),
    MMMErrorCode,
> {
    match fulfillment_access_spec(ctx.pool, ctx.owner, ctx.cosigner, ctx.referral, ctx.now) {
        Err(e) => Err(e),
        Ok(_) => if !ocp_sell_params_ok(ctx, args.asset_amount) {
            Err(MMMErrorCode::InvalidOcpAssetParams)
        } else {
            fulfill_sell_spec(
                ctx.pool,
                ctx.sell_state,
                FulfillRequest {
                    asset_amount: args.asset_amount,
                    payment_bound: args.max_payment_amount,
                    maker_fee_bp: args.maker_fee_bp,
                    taker_fee_bp: args.taker_fee_bp,
                },
                SellEnv {
                    allowlist_ok: ctx.allowlist_ok,
                    royalty_bp: ctx.royalty_bp,
                    escrow_balance: ctx.buyside_sol_escrow_lamports,
                    asset_escrow_amount: ctx.sellside_escrow_token_amount,
                },
            )
        },
    }
}

/// Runs the fulfillment on the accounts' values; the pool and position
/// change only on success.
pub fn handler(ctx: &mut SolOcpFulfillSell, args: &SolOcpFulfillSellArgs) -> (r: Result<SellSettlement, MMMErrorCode>)
    ensures
        match r {
            Ok(s) => sol_ocp_fulfill_sell_spec(*old(ctx), *args) == Ok::<
                (Pool, SellState, SellSettlement),
                MMMErrorCode,
            >((final(ctx).pool, final(ctx).sell_state, s)),
            Err(e) => sol_ocp_fulfill_sell_spec(*old(ctx), *args) == Err::<
                (Pool, SellState, SellSettlement),
                MMMErrorCode,
            >(e),
        },
        *final(ctx) == (SolOcpFulfillSell {
            pool: final(ctx).pool,
            sell_state: final(ctx).sell_state,
            ..*old(ctx)
        }),
        r is Err ==> *final(ctx) == *old(ctx),
{
    if let Err(e) = check_fulfillment_access(&ctx.pool, &ctx.owner, &ctx.cosigner, &ctx.referral, ctx.now) {
        return Err(e);
    }
    if !(ctx.asset_supply == 1 && ctx.asset_decimals == 0 && ctx.sellside_escrow_token_amount == 1
        && args.asset_amount == 1) {
        return Err(MMMErrorCode::InvalidOcpAssetParams);
    }
    let req = FulfillRequest {
        asset_amount: args.asset_amount,
        payment_bound: args.max_payment_amount,
        maker_fee_bp: args.maker_fee_bp,
        taker_fee_bp: args.taker_fee_bp,
    };
    let env = SellEnv {
        allowlist_ok: ctx.allowlist_ok,
        royalty_bp: ctx.royalty_bp,
        escrow_balance: ctx.buyside_sol_escrow_lamports,
        asset_escrow_amount: ctx.sellside_escrow_token_amount,
    };
    let mut pool = ctx.pool;
    let mut sell_state = ctx.sell_state;
    let r = settle_fulfill_sell(&mut pool, &mut sell_state, req, env);
    ctx.pool = pool;
    ctx.sell_state = sell_state;
    r
}

} // verus!
