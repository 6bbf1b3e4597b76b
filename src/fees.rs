use vstd::prelude::*;

use crate::constants::BP_DENOM;
use crate::curve::max_amount;
use crate::errors::MMMErrorCode;
use crate::state::Direction;

verus! {

/// `amount` scaled by `bp` basis points, rounded down (toward negative
/// infinity for a negative rate).
pub open spec fn bp_of(amount: int, bp: int) -> int {
    amount * bp / (BP_DENOM as int)
}

/// Whether a signed rate lies within one whole in either direction.
pub open spec fn signed_bp_ok(bp: int) -> bool {
    -(BP_DENOM as int) <= bp <= BP_DENOM as int
}

/// Whether an integer is representable as an `i64`.
pub open spec fn in_i64_range(x: int) -> bool {
    i64::MIN <= x <= i64::MAX
}

/// The liquidity-provider fee on an amount, rounded down.
pub fn get_lp_fee(amount: u64, lp_fee_bp: u16) -> (r: Result<u64, MMMErrorCode>)
    ensures
        lp_fee_bp > BP_DENOM ==> r == Err::<u64, MMMErrorCode>(MMMErrorCode::InvalidLPFee),
        lp_fee_bp <= BP_DENOM ==> r is Ok,
        r matches Ok(v) ==> v == bp_of(amount as int, lp_fee_bp as int) && v <= amount,
{
    if lp_fee_bp as u64 > BP_DENOM {
        return Err(MMMErrorCode::InvalidLPFee);
    }
    assert(amount as u128 * lp_fee_bp as u128 <= 0xffff_ffff_ffff_ffffu128 * 10000) by (nonlinear_arith)
        requires
            amount <= 0xffff_ffff_ffff_ffffu64,
            lp_fee_bp <= 10000,
            lp_fee_bp >= 0,
    ;
    let p: u128 = amount as u128 * lp_fee_bp as u128;
    assert(p / 10000 <= amount) by (nonlinear_arith)
        requires
            p == amount * lp_fee_bp,
            lp_fee_bp <= 10000,
    ;
    Ok((p / 10000) as u64)
}

/// A royalty on an amount, rounded down.
pub fn get_royalty(amount: u64, royalty_bp: u16) -> (r: Result<u64, MMMErrorCode>)
    ensures
        royalty_bp > BP_DENOM ==> r == Err::<u64, MMMErrorCode>(MMMErrorCode::InvalidBP),
        royalty_bp <= BP_DENOM ==> r is Ok,
        r matches Ok(v) ==> v == bp_of(amount as int, royalty_bp as int) && v <= amount,
{
    if royalty_bp as u64 > BP_DENOM {
        return Err(MMMErrorCode::InvalidBP);
    }
    assert(amount as u128 * royalty_bp as u128 <= 0xffff_ffff_ffff_ffffu128 * 10000) by (nonlinear_arith)
        requires
            amount <= 0xffff_ffff_ffff_ffffu64,
            royalty_bp <= 10000,
            royalty_bp >= 0,
    ;
    let p: u128 = amount as u128 * royalty_bp as u128;
    assert(p / 10000 <= amount) by (nonlinear_arith)
        requires
            p == amount * royalty_bp,
            royalty_bp <= 10000,
    ;
    Ok((p / 10000) as u64)
}

/// Checks that both signed maker and taker rates lie within one whole.
pub fn assert_valid_fees_bp(maker_fee_bp: i16, taker_fee_bp: i16) -> (r: Result<(), MMMErrorCode>)
    ensures
        r is Ok <==> signed_bp_ok(maker_fee_bp as int) && signed_bp_ok(taker_fee_bp as int),
        r is Err ==> r == Err::<(), MMMErrorCode>(MMMErrorCode::InvalidBP),
{
    if maker_fee_bp < -10000 || maker_fee_bp > 10000 || taker_fee_bp < -10000 || taker_fee_bp
        > 10000 {
        return Err(MMMErrorCode::InvalidBP);
    }
    Ok(())
}

/// A maker or taker fee on an amount at a signed rate, rounded down; a
/// negative fee is a rebate.
pub fn get_sol_fee(amount: u64, fee_bp: i16) -> (r: Result<i64, MMMErrorCode>)
    ensures
        !signed_bp_ok(fee_bp as int) ==> r == Err::<i64, MMMErrorCode>(MMMErrorCode::InvalidBP),
        signed_bp_ok(fee_bp as int) && in_i64_range(bp_of(amount as int, fee_bp as int)) ==> r
            == Ok::<i64, MMMErrorCode>(bp_of(amount as int, fee_bp as int) as i64),
        signed_bp_ok(fee_bp as int) && !in_i64_range(bp_of(amount as int, fee_bp as int)) ==> r
            == Err::<i64, MMMErrorCode>(MMMErrorCode::NumericOverflow),
{
    if fee_bp < -10000 || fee_bp > 10000 {
        return Err(MMMErrorCode::InvalidBP);
    }
    let ghost x = amount as int * fee_bp as int;
    if fee_bp >= 0 {
        assert(amount as u128 * fee_bp as u128 <= 0xffff_ffff_ffff_ffffu128 * 10000) by (nonlinear_arith)
            requires
                amount <= 0xffff_ffff_ffff_ffffu64,
                fee_bp <= 10000,
                fee_bp >= 0,
        ;
        let m: u128 = amount as u128 * fee_bp as u128;
        let q: u128 = m / 10000;
        assert(q <= amount) by (nonlinear_arith)
            requires
                q == m / 10000,
                m == amount * fee_bp,
                fee_bp <= 10000,
        ;
        assert(q == bp_of(amount as int, fee_bp as int));
        if q > 0x7fff_ffff_ffff_ffffu128 {
            return Err(MMMErrorCode::NumericOverflow);
        }
        Ok(q as i64)
    } else {
        let b: u128 = (0i32 - fee_bp as i32) as u128;
        assert(amount as u128 * b <= 0xffff_ffff_ffff_ffffu128 * 10000) by (nonlinear_arith)
            requires
                b <= 10000,
                amount <= 0xffff_ffff_ffff_ffffu64,
        ;
        let m: u128 = amount as u128 * b;
        let q: u128 = (m + 9999) / 10000;
        assert(x == -m) by (nonlinear_arith)
            requires
                x == amount * fee_bp,
                m == amount * b,
                b == -fee_bp,
        ;
        assert(-(q as int) == bp_of(amount as int, fee_bp as int));
        if q > 0x8000_0000_0000_0000u128 {
            return Err(MMMErrorCode::NumericOverflow);
        }
        if q == 0x8000_0000_0000_0000u128 {
            return Ok(i64::MIN);
        }
        Ok(0i64 - q as i64)
    }
}

/// What a seller into the pool receives before fees: the total grossed
/// down so that it, the lp fee and the royalty on it together stay within
/// the total.
pub open spec fn seller_receives_of(total: int, lp_fee_bp: int, royalty_bp: int) -> int {
    total * (BP_DENOM as int) / (BP_DENOM + lp_fee_bp + royalty_bp)
}

/// The amount that a seller into the pool receives before fees, for a total
/// price, an lp fee rate and a royalty rate.
pub fn get_buyside_seller_receives(total_price: u64, lp_fee_bp: u16, royalty_bp: u16) -> (r: Result<u64, MMMErrorCode>)
    ensures
        lp_fee_bp > BP_DENOM ==> r == Err::<u64, MMMErrorCode>(MMMErrorCode::InvalidLPFee),
        lp_fee_bp <= BP_DENOM && royalty_bp > BP_DENOM ==> r == Err::<u64, MMMErrorCode>(
            MMMErrorCode::InvalidBP,
        ),
        lp_fee_bp <= BP_DENOM && royalty_bp <= BP_DENOM ==> r == Ok::<u64, MMMErrorCode>(
            seller_receives_of(total_price as int, lp_fee_bp as int, royalty_bp as int) as u64,
        ),
        r matches Ok(v) ==> v <= total_price,
{
    if lp_fee_bp as u64 > BP_DENOM {
        return Err(MMMErrorCode::InvalidLPFee);
    }
    if royalty_bp as u64 > BP_DENOM {
        return Err(MMMErrorCode::InvalidBP);
    }
    let t: u128 = total_price as u128 * 10000;
    let den: u128 = 10000 + lp_fee_bp as u128 + royalty_bp as u128;
    let q: u128 = t / den;
    assert(q <= total_price) by (nonlinear_arith)
        requires
            q == t / den,
            t == total_price * 10000,
            den >= 10000,
    ;
    Ok(q as u64)
}

/// What one fulfillment costs and pays, all in currency units.
#[derive(PartialEq, Eq, Structural, Clone, Copy, Debug)]
pub struct FeeBreakdown {
    pub total_price: u64,
    pub next_price: u64,
    /// The amount the fee rates apply to.
    pub seller_receives: u64,
    pub lp_fee: u64,
    pub maker_fee: i64,
    pub taker_fee: i64,
    /// Maker plus taker fee, paid to the referral recipient.
    pub referral_fee: u64,
    pub royalty: u64,
}

/// The amount the fee rates apply to: the total when a buyer takes units
/// from the pool, what the seller receives when a seller puts units in.
pub open spec fn fee_base(dir: Direction, total: int, lp_fee_bp: int, royalty_bp: int) -> int {
    match dir {
        Direction::BuyerBuys => total,
        Direction::BuyerSells => seller_receives_of(total, lp_fee_bp, royalty_bp),
    }
}

/// The royalty clipped to what the total leaves after the other fees.
pub open spec fn clipped_royalty(total: int, lp_fee: int, maker: int, taker: int, raw: int) -> int {
    let room = total - lp_fee - maker - taker;
    if room <= 0 {
        0
    } else if raw <= room {
        raw
    } else {
        room
    }
}

/// The fee breakdown of a fulfillment, or the error that computing it
/// meets first.
pub open spec fn fees_spec(
    total: u64,
    next: u64,
    lp_fee_bp: u16,
    maker_fee_bp: i16,
    taker_fee_bp: i16,
    royalty_bp: u16,
    dir: Direction,
) -> Result<FeeBreakdown, MMMErrorCode> {
    if lp_fee_bp > BP_DENOM {
        Err(MMMErrorCode::InvalidLPFee)
    } else if royalty_bp > BP_DENOM || !signed_bp_ok(maker_fee_bp as int) || !signed_bp_ok(
        taker_fee_bp as int,
    ) {
        Err(MMMErrorCode::InvalidBP)
    } else {
        let base = fee_base(dir, total as int, lp_fee_bp as int, royalty_bp as int);
        let lp_fee = bp_of(base, lp_fee_bp as int);
        let maker = bp_of(base, maker_fee_bp as int);
        let taker = bp_of(base, taker_fee_bp as int);
        if !in_i64_range(maker) || !in_i64_range(taker) || maker + taker < 0 {
            Err(MMMErrorCode::NumericOverflow)
        } else {
            Ok(
                FeeBreakdown {
                    total_price: total,
                    next_price: next,
                    seller_receives: base as u64,
                    lp_fee: lp_fee as u64,
                    maker_fee: maker as i64,
                    taker_fee: taker as i64,
                    referral_fee: (maker + taker) as u64,
                    royalty: clipped_royalty(
                        total as int,
                        lp_fee,
                        maker,
                        taker,
                        bp_of(base, royalty_bp as int),
                    ) as u64,
                },
            )
        }
    }
}

/// Computes the fee breakdown of a fulfillment of `total` at the given
/// rates.
pub fn compute_fees(
    total: u64,
    next: u64,
    lp_fee_bp: u16,
    maker_fee_bp: i16,
    taker_fee_bp: i16,
    royalty_bp: u16,
    dir: Direction,
) -> (r: Result<FeeBreakdown, MMMErrorCode>)
    ensures
        r == fees_spec(total, next, lp_fee_bp, maker_fee_bp, taker_fee_bp, royalty_bp, dir),
        r matches Ok(f) ==> f.lp_fee <= f.seller_receives <= total,
{
    if lp_fee_bp as u64 > BP_DENOM {
        return Err(MMMErrorCode::InvalidLPFee);
    }
    if royalty_bp as u64 > BP_DENOM {
        return Err(MMMErrorCode::InvalidBP);
    }
    if let Err(e) = assert_valid_fees_bp(maker_fee_bp, taker_fee_bp) {
        return Err(e);
    }
    let base = match dir {
        Direction::BuyerBuys => total,
        Direction::BuyerSells => match get_buyside_seller_receives(total, lp_fee_bp, royalty_bp) {
            Ok(v) => v,
            Err(e) => {
                return Err(e);
            },
        },
    };
    proof {
        let t = total as int;
        let den = BP_DENOM + lp_fee_bp + royalty_bp;
        assert(0 <= t * (BP_DENOM as int) / den <= t) by (nonlinear_arith)
            requires
                t >= 0,
                den >= BP_DENOM,
                BP_DENOM == 10000,
        ;
        assert(base as int == fee_base(dir, total as int, lp_fee_bp as int, royalty_bp as int));
    }
    let lp_fee = match get_lp_fee(base, lp_fee_bp) {
        Ok(v) => v,
        Err(e) => {
            return Err(e);
        },
    };
    let maker = match get_sol_fee(base, maker_fee_bp) {
        Ok(v) => v,
        Err(e) => {
            return Err(e);
        },
    };
    let taker = match get_sol_fee(base, taker_fee_bp) {
        Ok(v) => v,
        Err(e) => {
            return Err(e);
        },
    };
    let sum: i128 = maker as i128 + taker as i128;
    if sum < 0 {
        return Err(MMMErrorCode::NumericOverflow);
    }
    let raw = match get_royalty(base, royalty_bp) {
        Ok(v) => v,
        Err(e) => {
            return Err(e);
        },
    };
    let room: i128 = total as i128 - lp_fee as i128 - maker as i128 - taker as i128;
    let royalty: u64 = if room <= 0 {
        0
    } else if raw as i128 <= room {
        raw
    } else {
        room as u64
    };
    proof {
        let b = fee_base(dir, total as int, lp_fee_bp as int, royalty_bp as int);
        assert(lp_fee as int == bp_of(b, lp_fee_bp as int));
        assert(maker as int == bp_of(b, maker_fee_bp as int));
        assert(taker as int == bp_of(b, taker_fee_bp as int));
        assert(raw as int == bp_of(b, royalty_bp as int));
        assert(royalty as int == clipped_royalty(total as int, lp_fee as int, maker as int, taker as int, raw as int));
    }
    Ok(
        FeeBreakdown {
            total_price: total,
            next_price: next,
            seller_receives: base,
            lp_fee,
            maker_fee: maker,
            taker_fee: taker,
            referral_fee: sum as u64,
            royalty,
        },
    )
}

} // verus!
