use vstd::prelude::*;

use crate::constants::{
    ALLOWLIST_KIND_ANY, ALLOWLIST_KIND_EMPTY, ALLOWLIST_MAX_LEN, BP_DENOM, CURVE_KIND_EXP,
    CURVE_KIND_LINEAR,
};

verus! {

/// A 32-byte account address.
#[derive(PartialEq, Eq, Clone, Copy, Debug)]
pub struct Pubkey {
    pub bytes: [u8; 32],
}

impl Pubkey {
    /// The all-zero address stands for "none".
    pub open spec fn is_default_spec(&self) -> bool {
        forall|i: int| 0 <= i < 32 ==> self.bytes@[i] == 0
    }

    /// Whether this is the all-zero address.
    pub fn is_default(&self) -> (r: bool)
        ensures
            r == self.is_default_spec(),
    {
        let mut i: usize = 0;
        while i < 32
            invariant
                i <= 32,
                forall|j: int| 0 <= j < i ==> self.bytes@[j] == 0,
            decreases 32 - i,
        {
            if self.bytes[i] != 0 {
                return false;
            }
            i = i + 1;
        }
        true
    }

    /// Whether two addresses are the same.
    pub fn same(&self, other: &Pubkey) -> (r: bool)
        ensures
            r == (self.bytes@ == other.bytes@),
    {
        let mut i: usize = 0;
        while i < 32
            invariant
                i <= 32,
                forall|j: int| 0 <= j < i ==> self.bytes@[j] == other.bytes@[j],
            decreases 32 - i,
        {
            if self.bytes[i] != other.bytes[i] {
                return false;
            }
            i = i + 1;
        }
        assert(self.bytes@ =~= other.bytes@);
        true
    }
}

/// One membership rule of a pool: a kind and the address it refers to.
#[derive(PartialEq, Eq, Clone, Copy, Debug)]
pub struct Allowlist {
    pub kind: u8,
    pub value: Pubkey,
}

impl Allowlist {
    /// A rule is well formed when its kind is known, and every kind but
    /// "empty" and "any" refers to a real address.
    pub open spec fn valid_spec(&self) -> bool {
        self.kind <= ALLOWLIST_KIND_ANY && (self.kind == ALLOWLIST_KIND_EMPTY || self.kind
            == ALLOWLIST_KIND_ANY || !self.value.is_default_spec())
    }

    pub fn valid(&self) -> (r: bool)
        ensures
            r == self.valid_spec(),
    {
        if self.kind > ALLOWLIST_KIND_ANY {
            false
        } else if self.kind == ALLOWLIST_KIND_EMPTY || self.kind == ALLOWLIST_KIND_ANY {
            true
        } else {
            !self.value.is_default()
        }
    }
}

/// Whether every rule of a set of allowlist rules is well formed.
pub open spec fn allowlists_valid(a: Seq<Allowlist>) -> bool {
    forall|i: int| 0 <= i < a.len() ==> (#[trigger] a[i]).valid_spec()
}

/// The shape of a pricing curve.
#[derive(PartialEq, Eq, Structural, Clone, Copy, Debug)]
pub enum CurveKind {
    /// Each unit moves the price by a fixed amount.
    Linear,
    /// Each unit scales the price by a fixed number of basis points.
    Exponential,
}

impl CurveKind {
    /// Reads a stored curve kind.
    pub fn from_u8(v: u8) -> (r: Option<CurveKind>)
        ensures
            v == CURVE_KIND_LINEAR ==> r == Some(CurveKind::Linear),
            v == CURVE_KIND_EXP ==> r == Some(CurveKind::Exponential),
            v != CURVE_KIND_LINEAR && v != CURVE_KIND_EXP ==> r is None,
    {
        if v == CURVE_KIND_LINEAR {
            Some(CurveKind::Linear)
        } else if v == CURVE_KIND_EXP {
            Some(CurveKind::Exponential)
        } else {
            None
        }
    }
}

/// Which way a fulfillment moves the spot price.
#[derive(PartialEq, Eq, Structural, Clone, Copy, Debug)]
pub enum Direction {
    /// A buyer takes units out of the pool: the spot price goes down.
    BuyerBuys,
    /// A seller puts units into the pool: the spot price goes up.
    BuyerSells,
}

/// A liquidity pool owned by one holder.
#[derive(PartialEq, Eq, Clone, Copy, Debug)]
pub struct Pool {
    pub spot_price: u64,
    pub curve_type: u8,
    pub curve_delta: u64,
    pub reinvest_fulfill_buy: bool,
    pub reinvest_fulfill_sell: bool,
    /// Unix time after which the pool no longer trades; 0 means never.
    pub expiry: i64,
    pub lp_fee_bp: u16,
    pub referral: Pubkey,
    pub cosigner_annotation: [u8; 32],
    /// Units currently held in the pool's asset escrows.
    pub sellside_asset_amount: u64,
    pub lp_fee_earned: u64,
    pub owner: Pubkey,
    pub cosigner: Pubkey,
    pub uuid: Pubkey,
    pub payment_mint: Pubkey,
    pub allowlists: [Allowlist; ALLOWLIST_MAX_LEN],
    /// Currency held in the pool's escrow (mirrors its balance).
    pub buyside_payment_amount: u64,
    /// The external liquidity account, or the default address when unused.
    pub shared_escrow_account: Pubkey,
    /// Units the external liquidity is still obligated to cover.
    pub shared_escrow_count: u64,
}

impl Pool {
    /// Fee rates lie in basis points, within one whole.
    pub open spec fn wf(&self) -> bool {
        self.lp_fee_bp <= BP_DENOM
    }

    pub open spec fn using_shared_escrow_spec(&self) -> bool {
        !self.shared_escrow_account.is_default_spec()
    }

    /// Whether the pool's buy side draws on external liquidity.
    pub fn using_shared_escrow(&self) -> (r: bool)
        ensures
            r == self.using_shared_escrow_spec(),
    {
        !self.shared_escrow_account.is_default()
    }
}

/// The record of the units of one asset that one pool holds for sale.
#[derive(PartialEq, Eq, Clone, Copy, Debug)]
pub struct SellState {
    pub pool: Pubkey,
    pub pool_owner: Pubkey,
    pub asset_mint: Pubkey,
    pub asset_amount: u64,
    pub cosigner_annotation: [u8; 32],
}

} // verus!
