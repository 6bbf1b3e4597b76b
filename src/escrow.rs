use vstd::prelude::*;

use crate::state::{Pool, SellState};

verus! {

/// A pool is closed once both of its sides are empty and neither
/// reinvestment flag would fill a side again.
pub open spec fn pool_closable_spec(pool: Pool) -> bool {
    pool.sellside_asset_amount == 0 && pool.buyside_payment_amount == 0
        && !pool.reinvest_fulfill_buy && !pool.reinvest_fulfill_sell
}

/// Whether the pool's storage is to be reclaimed now.
pub fn try_close_pool(pool: &Pool) -> (r: bool)
    ensures
        r == pool_closable_spec(*pool),
{
    pool.sellside_asset_amount == 0 && pool.buyside_payment_amount == 0
        && !pool.reinvest_fulfill_buy && !pool.reinvest_fulfill_sell
}

/// A position is closed exactly when it holds no units.
pub open spec fn sell_state_closable_spec(sell_state: SellState) -> bool {
    sell_state.asset_amount == 0
}

/// Whether a position's storage is to be reclaimed (its rent goes to the
/// pool owner).
pub fn try_close_sell_state(sell_state: &SellState) -> (r: bool)
    ensures
        r == sell_state_closable_spec(*sell_state),
{
    sell_state.asset_amount == 0
}

/// The currency escrow of a pool that keeps its own liquidity is closed,
/// its dust going to the pool, when it holds a positive balance below the
/// minimum viable one while no unit is for sale and no position is open.
pub open spec fn escrow_closable_spec(
    sellside_asset_amount: u64,
    position_open: bool,
    balance: u64,
    min_rent: u64,
) -> bool {
    sellside_asset_amount == 0 && !position_open && 0 < balance < min_rent
}

/// Whether a pool's own currency escrow is to be closed now.
pub fn try_close_escrow(sellside_asset_amount: u64, position_open: bool, balance: u64, min_rent: u64) -> (r: bool)
    ensures
        r == escrow_closable_spec(sellside_asset_amount, position_open, balance, min_rent),
{
    sellside_asset_amount == 0 && !position_open && 0 < balance && balance < min_rent
}

} // verus!
