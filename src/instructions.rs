use vstd::prelude::*;

use crate::errors::MMMErrorCode;
use crate::settlement::FulfillRequest;
use crate::state::{Pool, Pubkey};

pub mod ext_fulfill_sell;
pub mod sol_ocp_fulfill_buy;
pub mod sol_ocp_fulfill_sell;
pub mod update_allowlists;

verus! {

/// A buyer's request to take units from a pool.
#[derive(PartialEq, Eq, Debug)]
pub struct SolFulfillSellArgs {
    pub asset_amount: u64,
    pub max_payment_amount: u64,
    pub buyside_creator_royalty_bp: u16,
    pub allowlist_aux: Option<String>,
    pub maker_fee_bp: i16,
    pub taker_fee_bp: i16,
}

/// A seller's request to put units into a pool.
#[derive(PartialEq, Eq, Debug)]
pub struct SolFulfillBuyArgs {
    pub asset_amount: u64,
    pub min_payment_amount: u64,
    pub allowlist_aux: Option<String>,
    pub maker_fee_bp: i16,
    pub taker_fee_bp: i16,
}

/// Which party may fulfill against a pool at a given time: the owner and
/// co-signer must be the pool's and distinct, the referral the pool's, the
/// pool must trade in the native currency and must not have expired.
pub open spec fn fulfillment_access_spec(
    pool: Pool,
    owner: Pubkey,
    cosigner: Pubkey,
    referral: Pubkey,
    now: i64,
) -> Result<(), MMMErrorCode> {
    if owner.bytes@ == cosigner.bytes@ {
        Err(MMMErrorCode::InvalidCosigner)
    } else if pool.referral.bytes@ != referral.bytes@ {
        Err(MMMErrorCode::InvalidReferral)
    } else if pool.owner.bytes@ != owner.bytes@ {
        Err(MMMErrorCode::InvalidOwner)
    } else if pool.cosigner.bytes@ != cosigner.bytes@ {
        Err(MMMErrorCode::InvalidCosigner)
    } else if !pool.payment_mint.is_default_spec() {
        Err(MMMErrorCode::InvalidPaymentMint)
    } else if !(pool.expiry == 0 || pool.expiry > now) {
        Err(MMMErrorCode::Expired)
    } else {
        Ok(())
    }
}

/// Checks who may fulfill against a pool, before anything is computed.
pub fn check_fulfillment_access(
    pool: &Pool,
    owner: &Pubkey,
    cosigner: &Pubkey,
    referral: &Pubkey,
    now: i64,
) -> (r: Result<(), MMMErrorCode>)
    ensures
        r == fulfillment_access_spec(*pool, *owner, *cosigner, *referral, now),
{
    if owner.same(cosigner) {
        return Err(MMMErrorCode::InvalidCosigner);
    }
    if !pool.referral.same(referral) {
        return Err(MMMErrorCode::InvalidReferral);
    }
    if !pool.owner.same(owner) {
        return Err(MMMErrorCode::InvalidOwner);
    }
    if !pool.cosigner.same(cosigner) {
        return Err(MMMErrorCode::InvalidCosigner);
    }
    if !pool.payment_mint.is_default() {
        return Err(MMMErrorCode::InvalidPaymentMint);
    }
    if !(pool.expiry == 0 || pool.expiry > now) {
        return Err(MMMErrorCode::Expired);
    }
    Ok(())
}

/// The request a buyer's arguments make.
pub open spec fn sell_request_spec(args: SolFulfillSellArgs) -> FulfillRequest {
    FulfillRequest {
        asset_amount: args.asset_amount,
        payment_bound: args.max_payment_amount,
        maker_fee_bp: args.maker_fee_bp,
        taker_fee_bp: args.taker_fee_bp,
    }
}

/// The request a seller's arguments make.
pub open spec fn buy_request_spec(args: SolFulfillBuyArgs) -> FulfillRequest {
    FulfillRequest {
        asset_amount: args.asset_amount,
        payment_bound: args.min_payment_amount,
        maker_fee_bp: args.maker_fee_bp,
        taker_fee_bp: args.taker_fee_bp,
    }
}

} // verus!
