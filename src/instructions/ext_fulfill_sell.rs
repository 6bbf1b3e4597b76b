use vstd::prelude::*;

use crate::constants::BP_DENOM;
use crate::errors::MMMErrorCode;
use crate::instructions::{
    check_fulfillment_access, fulfillment_access_spec, sell_request_spec, SolFulfillSellArgs,
};
use crate::settlement::{
    fulfill_sell_spec, settle_fulfill_sell, FulfillRequest, SellEnv, SellSettlement,
};
use crate::state::{Pool, Pubkey, SellState};

verus! {

/// A buyer takes units of a fungible-extension asset from a pool that holds
/// them for sale, paying at most `max_payment_amount`. These are the
/// accounts the fulfillment reads, as values.
#[derive(PartialEq, Eq, Clone, Copy, Debug)]
pub struct ExtSolFulfillSell {
    pub payer: Pubkey,
    pub owner: Pubkey,
    pub cosigner: Pubkey,
    pub referral: Pubkey,
    pub pool: Pool,
    /// The balance of the pool's currency escrow.
    pub buyside_sol_escrow_lamports: u64,
    pub asset_mint: Pubkey,
    /// The units of the asset in the pool's asset escrow.
    pub sellside_escrow_token_amount: u64,
    pub sell_state: SellState,
    /// The current unix time.
    pub now: i64,
    /// Whether the asset passed the pool's allowlist.
    pub allowlist_ok: bool,
}

/// The outcome of the fulfillment: access checked first, then the creator
/// royalty rate, then the settlement (no royalty is due on this path).
pub open spec fn ext_fulfill_sell_spec(ctx: ExtSolFulfillSell, args: SolFulfillSellArgs) -> Result<
    (Pool, SellState, SellSettlement),
    MMMErrorCode,
> {
    match fulfillment_access_spec(ctx.pool, ctx.owner, ctx.cosigner, ctx.referral, ctx.now) {
        Err(e) => Err(e),
        Ok(_) => if args.buyside_creator_royalty_bp > BP_DENOM {
            Err(MMMErrorCode::InvalidBP)
        } else {
            fulfill_sell_spec(
                ctx.pool,
                ctx.sell_state,
                sell_request_spec(args),
                SellEnv {
                    allowlist_ok: ctx.allowlist_ok,
                    royalty_bp: 0,
                    escrow_balance: ctx.buyside_sol_escrow_lamports,
                    asset_escrow_amount: ctx.sellside_escrow_token_amount,
                },
            )
        },
    }
}

/// Runs the fulfillment on the accounts' values; the pool and position
/// change only on success.
pub fn handler(ctx: &mut ExtSolFulfillSell, args: &SolFulfillSellArgs) -> (r: Result<SellSettlement, MMMErrorCode>)
    ensures
        match r {
            Ok(s) => ext_fulfill_sell_spec(*old(ctx), *args) == Ok::<
                (Pool, SellState, SellSettlement),
                MMMErrorCode,
            >((final(ctx).pool, final(ctx).sell_state, s)),
            Err(e) => ext_fulfill_sell_spec(*old(ctx), *args) == Err::<
                (Pool, SellState, SellSettlement),
                MMMErrorCode,
            >(e),
        },
        *final(ctx) == (ExtSolFulfillSell {
            pool: final(ctx).pool,
            sell_state: final(ctx).sell_state,
            ..*old(ctx)
        }),
        r is Err ==> *final(ctx) == *old(ctx),
{
    if let Err(e) = check_fulfillment_access(&ctx.pool, &ctx.owner, &ctx.cosigner, &ctx.referral, ctx.now) {
        return Err(e);
    }
    if args.buyside_creator_royalty_bp as u64 > BP_DENOM {
        return Err(MMMErrorCode::InvalidBP);
    }
    let req = FulfillRequest {
        asset_amount: args.asset_amount,
        payment_bound: args.max_payment_amount,
        maker_fee_bp: args.maker_fee_bp,
        taker_fee_bp: args.taker_fee_bp,
    };
    let env = SellEnv {
        allowlist_ok: ctx.allowlist_ok,
        royalty_bp: 0,
        escrow_balance: ctx.buyside_sol_escrow_lamports,
        asset_escrow_amount: ctx.sellside_escrow_token_amount,
    };
    let mut pool = ctx.pool;
    let mut sell_state = ctx.sell_state;
    let r = settle_fulfill_sell(&mut pool, &mut sell_state, req, env);
    ctx.pool = pool;
    ctx.sell_state = sell_state;
    r
}

} // verus!
