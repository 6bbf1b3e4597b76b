use vstd::prelude::*;

use crate::curve::{get_total_price_and_next_price, in_amount_range, pool_price_spec};
use crate::errors::MMMErrorCode;
use crate::escrow::{
    escrow_closable_spec, pool_closable_spec, try_close_escrow, try_close_pool,
    try_close_sell_state,
};
use crate::fees::{compute_fees, fees_spec, FeeBreakdown};
use crate::state::{Direction, Pool, Pubkey, SellState};

verus! {

/// What a counterparty asks of one fulfillment.
#[derive(PartialEq, Eq, Structural, Clone, Copy, Debug)]
pub struct FulfillRequest {
    pub asset_amount: u64,
    /// The most a buyer pays, or the least a seller accepts.
    pub payment_bound: u64,
    pub maker_fee_bp: i16,
    pub taker_fee_bp: i16,
}

/// What the collaborators report before a buyer takes units from a pool.
#[derive(PartialEq, Eq, Structural, Clone, Copy, Debug)]
pub struct SellEnv {
    /// Whether the asset passed the pool's allowlist.
    pub allowlist_ok: bool,
    /// The royalty rate due on the asset, 0 where none is paid.
    pub royalty_bp: u16,
    /// The balance of the pool's currency escrow.
    pub escrow_balance: u64,
    /// The units of the asset in the pool's asset escrow.
    pub asset_escrow_amount: u64,
}

/// The transfers and closings that a buyer's fulfillment calls for.
#[derive(PartialEq, Eq, Structural, Clone, Copy, Debug)]
pub struct SellSettlement {
    pub fees: FeeBreakdown,
    /// Paid by the buyer to the pool: total price less maker fee.
    pub payment_to_pool: u64,
    /// Whether that payment goes into the currency escrow rather than to
    /// the owner.
    pub pay_to_escrow: bool,
    /// All that the buyer pays: total price, lp fee, taker fee and royalty.
    pub payment_amount: u64,
    /// Whether the asset escrow is emptied and closed.
    pub close_asset_escrow: bool,
    pub close_sell_state: bool,
    pub close_pool: bool,
}

/// The outcome of a buyer taking `req.asset_amount` units from a pool:
/// the pool and position after it and the settlement, or the first error.
pub open spec fn fulfill_sell_spec(pool: Pool, ss: SellState, req: FulfillRequest, env: SellEnv) -> Result<
    (Pool, SellState, SellSettlement),
    MMMErrorCode,
> {
    if !env.allowlist_ok {
        Err(MMMErrorCode::InvalidAllowLists)
    } else {
        match pool_price_spec(pool, req.asset_amount as nat, Direction::BuyerBuys) {
            Err(e) => Err(e),
            Ok((total, next)) => match fees_spec(
                total,
                next,
                pool.lp_fee_bp,
                req.maker_fee_bp,
                req.taker_fee_bp,
                env.royalty_bp,
                Direction::BuyerBuys,
            ) {
                Err(e) => Err(e),
                Ok(f) => {
                    let to_pool = total - f.maker_fee;
                    let payment = total + f.lp_fee + f.taker_fee + f.royalty;
                    let sellside = pool.sellside_asset_amount - req.asset_amount;
                    let earned = pool.lp_fee_earned + f.lp_fee;
                    let position = ss.asset_amount - req.asset_amount;
                    let escrow = env.escrow_balance + if pool.reinvest_fulfill_sell {
                        to_pool
                    } else {
                        0
                    };
                    if !in_amount_range(to_pool) {
                        Err(MMMErrorCode::NumericOverflow)
                    } else if env.asset_escrow_amount < req.asset_amount {
                        Err(MMMErrorCode::NotEnoughBalance)
                    } else if sellside < 0 || !in_amount_range(earned) || !in_amount_range(payment) {
                        Err(MMMErrorCode::NumericOverflow)
                    } else if payment > req.payment_bound {
                        Err(MMMErrorCode::InvalidRequestedPrice)
                    } else if position < 0 || !in_amount_range(escrow) {
                        Err(MMMErrorCode::NumericOverflow)
                    } else {
                        let new_pool = Pool {
                            spot_price: next,
                            sellside_asset_amount: sellside as u64,
                            lp_fee_earned: earned as u64,
                            buyside_payment_amount: escrow as u64,
                            ..pool
                        };
                        let new_ss = SellState { asset_amount: position as u64, ..ss };
                        Ok(
                            (
                                new_pool,
                                new_ss,
                                SellSettlement {
                                    fees: f,
                                    payment_to_pool: to_pool as u64,
                                    pay_to_escrow: pool.reinvest_fulfill_sell,
                                    payment_amount: payment as u64,
                                    close_asset_escrow: env.asset_escrow_amount == req.asset_amount,
                                    close_sell_state: position == 0,
                                    close_pool: pool_closable_spec(new_pool),
                                },
                            ),
                        )
                    }
                },
            },
        }
    }
}

/// Settles a buyer taking units from the pool's sell side: prices the
/// batch, splits the fees, checks the buyer's bound, and moves the pool
/// and position to their new state. On any error neither is changed.
pub fn settle_fulfill_sell(pool: &mut Pool, sell_state: &mut SellState, req: FulfillRequest, env: SellEnv) -> (r: Result<SellSettlement, MMMErrorCode>)
    ensures
        match r {
            Ok(s) => fulfill_sell_spec(*old(pool), *old(sell_state), req, env) == Ok::<
                (Pool, SellState, SellSettlement),
                MMMErrorCode,
            >((*final(pool), *final(sell_state), s)),
            Err(e) => fulfill_sell_spec(*old(pool), *old(sell_state), req, env) == Err::<
                (Pool, SellState, SellSettlement),
                MMMErrorCode,
            >(e) && *final(pool) == *old(pool) && *final(sell_state) == *old(sell_state),
        },
        final(pool).wf() == old(pool).wf(),
        final(pool).sellside_asset_amount - final(sell_state).asset_amount == old(
            pool,
        ).sellside_asset_amount - old(sell_state).asset_amount,
{
    if !env.allowlist_ok {
        return Err(MMMErrorCode::InvalidAllowLists);
    }
    let (total, next) = match get_total_price_and_next_price(pool, req.asset_amount, Direction::BuyerBuys) {
        Ok(v) => v,
        Err(e) => {
            return Err(e);
        },
    };
    let f = match compute_fees(
        total,
        next,
        pool.lp_fee_bp,
        req.maker_fee_bp,
        req.taker_fee_bp,
        env.royalty_bp,
        Direction::BuyerBuys,
    ) {
        Ok(v) => v,
        Err(e) => {
            return Err(e);
        },
    };
    if (f.maker_fee as i128) > (total as i128) {
        return Err(MMMErrorCode::NumericOverflow);
    }
    let to_pool_wide: i128 = total as i128 - f.maker_fee as i128;
    if to_pool_wide > 0xffff_ffff_ffff_ffffi128 {
        return Err(MMMErrorCode::NumericOverflow);
    }
    let to_pool = to_pool_wide as u64;
    if env.asset_escrow_amount < req.asset_amount {
        return Err(MMMErrorCode::NotEnoughBalance);
    }
    if pool.sellside_asset_amount < req.asset_amount || f.lp_fee > u64::MAX - pool.lp_fee_earned {
        return Err(MMMErrorCode::NumericOverflow);
    }
    let payment_wide: i128 = total as i128 + f.lp_fee as i128 + f.taker_fee as i128 + f.royalty as i128;
    if payment_wide < 0 || payment_wide > 0xffff_ffff_ffff_ffffi128 {
        return Err(MMMErrorCode::NumericOverflow);
    }
    let payment = payment_wide as u64;
    if payment > req.payment_bound {
        return Err(MMMErrorCode::InvalidRequestedPrice);
    }
    let deposit: u64 = if pool.reinvest_fulfill_sell {
        to_pool
    } else {
        0
    };
    if sell_state.asset_amount < req.asset_amount || deposit > u64::MAX - env.escrow_balance {
        return Err(MMMErrorCode::NumericOverflow);
    }
    pool.spot_price = next;
    pool.sellside_asset_amount = pool.sellside_asset_amount - req.asset_amount;
    pool.lp_fee_earned = pool.lp_fee_earned + f.lp_fee;
    pool.buyside_payment_amount = env.escrow_balance + deposit;
    sell_state.asset_amount = sell_state.asset_amount - req.asset_amount;
    let close_pool = try_close_pool(pool);
    let close_sell_state = try_close_sell_state(sell_state);
    Ok(
        SellSettlement {
            fees: f,
            payment_to_pool: to_pool,
            pay_to_escrow: pool.reinvest_fulfill_sell,
            payment_amount: payment,
            close_asset_escrow: env.asset_escrow_amount == req.asset_amount,
            close_sell_state,
            close_pool,
        },
    )
}

/// What the collaborators report before a seller puts units into a pool.
#[derive(PartialEq, Eq, Clone, Copy, Debug)]
pub struct BuyEnv {
    /// Whether the asset passed the pool's allowlist.
    pub allowlist_ok: bool,
    /// The royalty rate due on the asset, 0 where none is paid.
    pub royalty_bp: u16,
    /// The balance of the pool's currency escrow.
    pub escrow_balance: u64,
    /// The units of the asset in the seller's account.
    pub seller_asset_amount: u64,
    /// The balance of the external liquidity account, where the pool uses one.
    pub shared_escrow_balance: u64,
    /// The smallest balance an account may keep open with.
    pub min_rent: u64,
    /// The address of the pool.
    pub pool_key: Pubkey,
    /// The asset's mint.
    pub asset_mint: Pubkey,
}

/// The transfers and closings that a seller's fulfillment calls for.
#[derive(PartialEq, Eq, Structural, Clone, Copy, Debug)]
pub struct BuySettlement {
    pub fees: FeeBreakdown,
    /// Drawn from the external liquidity into the currency escrow first
    /// (0 when the pool keeps its own liquidity).
    pub shared_withdrawal: u64,
    /// Whether the asset goes into the pool's escrow rather than to the owner.
    pub asset_to_escrow: bool,
    /// Whether the seller's asset account is emptied and closed.
    pub close_seller_asset_account: bool,
    /// Paid from the currency escrow to the asset's creators.
    pub royalty_paid: u64,
    /// Paid from the currency escrow to the seller.
    pub payment_amount: u64,
    /// Swept from the currency escrow back to the external liquidity.
    pub shared_sweep: u64,
    /// Whether the currency escrow is closed, its remainder going to the pool.
    pub close_escrow: bool,
    pub close_sell_state: bool,
    pub close_pool: bool,
}

/// The outcome of a seller putting `req.asset_amount` units into a pool:
/// the pool and position after it and the settlement, or the first error.
pub open spec fn fulfill_buy_spec(pool: Pool, ss: SellState, req: FulfillRequest, env: BuyEnv) -> Result<
    (Pool, SellState, BuySettlement),
    MMMErrorCode,
> {
    if !env.allowlist_ok {
        Err(MMMErrorCode::InvalidAllowLists)
    } else {
        match pool_price_spec(pool, req.asset_amount as nat, Direction::BuyerSells) {
            Err(e) => Err(e),
            Ok((total, next)) => match fees_spec(
                total,
                next,
                pool.lp_fee_bp,
                req.maker_fee_bp,
                req.taker_fee_bp,
                env.royalty_bp,
                Direction::BuyerSells,
            ) {
                Err(e) => Err(e),
                Ok(f) => {
                    let n = req.asset_amount as int;
                    let shared = pool.using_shared_escrow_spec();
                    let withdrawal = if shared {
                        total + f.maker_fee
                    } else {
                        0
                    };
                    let count = pool.shared_escrow_count - n;
                    let escrow = env.escrow_balance + withdrawal;
                    let added = if pool.reinvest_fulfill_buy {
                        n
                    } else {
                        0
                    };
                    let sellside = pool.sellside_asset_amount + added;
                    let position = ss.asset_amount + added;
                    let payment = total - f.lp_fee - f.taker_fee - f.royalty;
                    let outflow = payment + f.lp_fee + f.referral_fee + f.royalty;
                    let earned = pool.lp_fee_earned + f.lp_fee;
                    if shared && !in_amount_range(withdrawal) {
                        Err(MMMErrorCode::NumericOverflow)
                    } else if shared && withdrawal > env.shared_escrow_balance {
                        Err(MMMErrorCode::NotEnoughBalance)
                    } else if shared && (count < 0 || !in_amount_range(escrow)) {
                        Err(MMMErrorCode::NumericOverflow)
                    } else if env.seller_asset_amount < n {
                        Err(MMMErrorCode::NotEnoughBalance)
                    } else if !in_amount_range(sellside) || !in_amount_range(position) {
                        Err(MMMErrorCode::NumericOverflow)
                    } else if !in_amount_range(payment) {
                        Err(MMMErrorCode::NumericOverflow)
                    } else if payment < req.payment_bound {
                        Err(MMMErrorCode::InvalidRequestedPrice)
                    } else if outflow > escrow {
                        Err(MMMErrorCode::NotEnoughBalance)
                    } else if !in_amount_range(earned) {
                        Err(MMMErrorCode::NumericOverflow)
                    } else {
                        let bal = escrow - outflow;
                        let sweep = if shared && bal >= env.min_rent {
                            bal
                        } else {
                            0
                        };
                        let close_escrow = if shared {
                            bal < env.min_rent
                        } else {
                            escrow_closable_spec(
                                sellside as u64,
                                position > 0,
                                bal as u64,
                                env.min_rent,
                            )
                        };
                        let final_bal = if shared || close_escrow {
                            0
                        } else {
                            bal
                        };
                        let new_pool = Pool {
                            spot_price: next,
                            sellside_asset_amount: sellside as u64,
                            lp_fee_earned: earned as u64,
                            shared_escrow_count: if shared {
                                count as u64
                            } else {
                                pool.shared_escrow_count
                            },
                            buyside_payment_amount: final_bal as u64,
                            ..pool
                        };
                        let new_ss = if pool.reinvest_fulfill_buy {
                            SellState {
                                pool: env.pool_key,
                                pool_owner: pool.owner,
                                asset_mint: env.asset_mint,
                                asset_amount: position as u64,
                                cosigner_annotation: pool.cosigner_annotation,
                            }
                        } else {
                            ss
                        };
                        Ok(
                            (
                                new_pool,
                                new_ss,
                                BuySettlement {
                                    fees: f,
                                    shared_withdrawal: withdrawal as u64,
                                    asset_to_escrow: pool.reinvest_fulfill_buy,
                                    close_seller_asset_account: env.seller_asset_amount == n,
                                    royalty_paid: f.royalty,
                                    payment_amount: payment as u64,
                                    shared_sweep: sweep as u64,
                                    close_escrow,
                                    close_sell_state: position == 0,
                                    close_pool: pool_closable_spec(new_pool),
                                },
                            ),
                        )
                    }
                },
            },
        }
    }
}

/// Settles a seller putting units into the pool's buy side: prices the
/// batch, splits the fees and royalty, draws on external liquidity where the
/// pool uses it, checks the seller's bound, and moves the pool and position
/// to their new state. On any error neither is changed.
pub fn settle_fulfill_buy(pool: &mut Pool, sell_state: &mut SellState, req: FulfillRequest, env: BuyEnv) -> (r: Result<BuySettlement, MMMErrorCode>)
    ensures
        match r {
            Ok(s) => fulfill_buy_spec(*old(pool), *old(sell_state), req, env) == Ok::<
                (Pool, SellState, BuySettlement),
                MMMErrorCode,
            >((*final(pool), *final(sell_state), s)),
            Err(e) => fulfill_buy_spec(*old(pool), *old(sell_state), req, env) == Err::<
                (Pool, SellState, BuySettlement),
                MMMErrorCode,
            >(e) && *final(pool) == *old(pool) && *final(sell_state) == *old(sell_state),
        },
        final(pool).wf() == old(pool).wf(),
        final(pool).sellside_asset_amount - final(sell_state).asset_amount == old(
            pool,
        ).sellside_asset_amount - old(sell_state).asset_amount,
{
    if !env.allowlist_ok {
        return Err(MMMErrorCode::InvalidAllowLists);
    }
    let (total, next) = match get_total_price_and_next_price(pool, req.asset_amount, Direction::BuyerSells) {
        Ok(v) => v,
        Err(e) => {
            return Err(e);
        },
    };
    let f = match compute_fees(
        total,
        next,
        pool.lp_fee_bp,
        req.maker_fee_bp,
        req.taker_fee_bp,
        env.royalty_bp,
        Direction::BuyerSells,
    ) {
        Ok(v) => v,
        Err(e) => {
            return Err(e);
        },
    };
    let n = req.asset_amount;
    let shared = pool.using_shared_escrow();
    let mut withdrawal: u64 = 0;
    let mut count: u64 = pool.shared_escrow_count;
    if shared {
        let w: i128 = total as i128 + f.maker_fee as i128;
        if w < 0 || w > 0xffff_ffff_ffff_ffffi128 {
            return Err(MMMErrorCode::NumericOverflow);
        }
        if w as u64 > env.shared_escrow_balance {
            return Err(MMMErrorCode::NotEnoughBalance);
        }
        if pool.shared_escrow_count < n || w as u64 > u64::MAX - env.escrow_balance {
            return Err(MMMErrorCode::NumericOverflow);
        }
        withdrawal = w as u64;
        count = pool.shared_escrow_count - n;
    }
    let escrow: u64 = env.escrow_balance + withdrawal;
    if env.seller_asset_amount < n {
        return Err(MMMErrorCode::NotEnoughBalance);
    }
    let added: u64 = if pool.reinvest_fulfill_buy {
        n
    } else {
        0
    };
    if added > u64::MAX - pool.sellside_asset_amount || added > u64::MAX - sell_state.asset_amount {
        return Err(MMMErrorCode::NumericOverflow);
    }
    let sellside: u64 = pool.sellside_asset_amount + added;
    let position: u64 = sell_state.asset_amount + added;
    let payment_wide: i128 = total as i128 - f.lp_fee as i128 - f.taker_fee as i128 - f.royalty as i128;
    if payment_wide < 0 || payment_wide > 0xffff_ffff_ffff_ffffi128 {
        return Err(MMMErrorCode::NumericOverflow);
    }
    let payment = payment_wide as u64;
    if payment < req.payment_bound {
        return Err(MMMErrorCode::InvalidRequestedPrice);
    }
    let outflow: i128 = payment_wide + f.lp_fee as i128 + f.referral_fee as i128 + f.royalty as i128;
    if outflow > escrow as i128 {
        return Err(MMMErrorCode::NotEnoughBalance);
    }
    if f.lp_fee > u64::MAX - pool.lp_fee_earned {
        return Err(MMMErrorCode::NumericOverflow);
    }
    let bal: u64 = (escrow as i128 - outflow) as u64;
    let sweep: u64 = if shared && bal >= env.min_rent {
        bal
    } else {
        0
    };
    let close_escrow = if shared {
        bal < env.min_rent
    } else {
        try_close_escrow(sellside, position > 0, bal, env.min_rent)
    };
    let final_bal: u64 = if shared || close_escrow {
        0
    } else {
        bal
    };
    pool.spot_price = next;
    pool.sellside_asset_amount = sellside;
    pool.lp_fee_earned = pool.lp_fee_earned + f.lp_fee;
    pool.shared_escrow_count = count;
    pool.buyside_payment_amount = final_bal;
    if pool.reinvest_fulfill_buy {
        sell_state.pool = env.pool_key;
        sell_state.pool_owner = pool.owner;
        sell_state.asset_mint = env.asset_mint;
        sell_state.asset_amount = position;
        sell_state.cosigner_annotation = pool.cosigner_annotation;
    }
    let close_pool = try_close_pool(pool);
    let close_sell_state = try_close_sell_state(sell_state);
    Ok(
        BuySettlement {
            fees: f,
            shared_withdrawal: withdrawal,
            asset_to_escrow: pool.reinvest_fulfill_buy,
            close_seller_asset_account: env.seller_asset_amount == n,
            royalty_paid: f.royalty,
            payment_amount: payment,
            shared_sweep: sweep,
            close_escrow,
            close_sell_state,
            close_pool,
        },
    )
}

} // verus!
