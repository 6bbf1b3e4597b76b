use vstd::prelude::*;

use crate::constants::BP_DENOM;
use crate::errors::MMMErrorCode;
use crate::state::{CurveKind, Direction, Pool};

verus! {

/// The largest amount a balance can hold.
pub open spec fn max_amount() -> int {
    u64::MAX as int
}

/// Whether an integer is a representable amount.
pub open spec fn in_amount_range(x: int) -> bool {
    0 <= x <= max_amount()
}

/// One step of an exponential curve: the price scaled by one plus or minus
/// `delta` basis points, rounded down.
pub open spec fn exp_step(price: int, delta: int, dir: Direction) -> int {
    match dir {
        Direction::BuyerBuys => price * (BP_DENOM - delta) / (BP_DENOM as int),
        Direction::BuyerSells => price * (BP_DENOM + delta) / (BP_DENOM as int),
    }
}

/// The price of the unit at offset `k` of a batch that starts at `spot`.
pub open spec fn unit_price(kind: CurveKind, spot: int, delta: int, dir: Direction, k: nat) -> int
    decreases k,
{
    match kind {
        CurveKind::Linear => match dir {
            Direction::BuyerBuys => spot - k * delta,
            Direction::BuyerSells => spot + k * delta,
        },
        CurveKind::Exponential => if k == 0 {
            spot
        } else {
            exp_step(unit_price(kind, spot, delta, dir, (k - 1) as nat), delta, dir)
        },
    }
}

/// The sum of the prices of the first `n` units of a batch.
pub open spec fn batch_total(kind: CurveKind, spot: int, delta: int, dir: Direction, n: nat) -> int
    decreases n,
{
    if n == 0 {
        0
    } else {
        batch_total(kind, spot, delta, dir, (n - 1) as nat) + unit_price(
            kind,
            spot,
            delta,
            dir,
            (n - 1) as nat,
        )
    }
}

/// Whether every unit price up to and including offset `n` is representable.
pub open spec fn prices_in_range(kind: CurveKind, spot: int, delta: int, dir: Direction, n: nat) -> bool {
    forall|k: nat| k <= n ==> in_amount_range(#[trigger] unit_price(kind, spot, delta, dir, k))
}

/// Whether a batch of `n` units can be priced without leaving the range of
/// amounts: at least one unit, every unit price and the price past the batch
/// representable, and the total representable.
pub open spec fn batch_ok(kind: CurveKind, spot: int, delta: int, dir: Direction, n: nat) -> bool {
    n > 0 && prices_in_range(kind, spot, delta, dir, n) && batch_total(kind, spot, delta, dir, n)
        <= max_amount()
}

/// The curve kind a pool stores, if it is a known one.
pub open spec fn curve_kind_of(curve_type: u8) -> Option<CurveKind> {
    if curve_type == crate::constants::CURVE_KIND_LINEAR {
        Some(CurveKind::Linear)
    } else if curve_type == crate::constants::CURVE_KIND_EXP {
        Some(CurveKind::Exponential)
    } else {
        None
    }
}

/// What pricing `n` units of a pool gives: the total and the next spot
/// price, or the error.
pub open spec fn pool_price_spec(pool: Pool, n: nat, dir: Direction) -> Result<(u64, u64), MMMErrorCode> {
    match curve_kind_of(pool.curve_type) {
        None => Err(MMMErrorCode::InvalidCurveType),
        Some(kind) => if batch_ok(kind, pool.spot_price as int, pool.curve_delta as int, dir, n) {
            Ok(
                (
                    batch_total(kind, pool.spot_price as int, pool.curve_delta as int, dir, n) as u64,
                    unit_price(kind, pool.spot_price as int, pool.curve_delta as int, dir, n) as u64,
                ),
            )
        } else {
            Err(MMMErrorCode::NumericOverflow)
        },
    }
}

/// Twice the total of a linear batch is the number of units times the sum
/// of its first and last unit prices.
pub proof fn lemma_linear_closed_form(spot: int, delta: int, dir: Direction, n: nat)
    ensures
        dir == Direction::BuyerBuys ==> 2 * batch_total(CurveKind::Linear, spot, delta, dir, n)
            == n * (2 * spot - (n - 1) * delta),
        dir == Direction::BuyerSells ==> 2 * batch_total(CurveKind::Linear, spot, delta, dir, n)
            == n * (2 * spot + (n - 1) * delta),
    decreases n,
{
    if n > 0 {
        let m = (n - 1) as nat;
        lemma_linear_closed_form(spot, delta, dir, m);
        let tm = batch_total(CurveKind::Linear, spot, delta, dir, m);
        let tn = batch_total(CurveKind::Linear, spot, delta, dir, n);
        match dir {
            Direction::BuyerBuys => {
                assert(tn == tm + spot - m * delta);
                assert(2 * tn == n * (2 * spot - (n - 1) * delta)) by (nonlinear_arith)
                    requires
                        n == m + 1,
                        tn == tm + spot - m * delta,
                        2 * tm == m * (2 * spot - (m - 1) * delta),
                ;
            },
            Direction::BuyerSells => {
                assert(tn == tm + spot + m * delta);
                assert(2 * tn == n * (2 * spot + (n - 1) * delta)) by (nonlinear_arith)
                    requires
                        n == m + 1,
                        tn == tm + spot + m * delta,
                        2 * tm == m * (2 * spot + (m - 1) * delta),
                ;
            },
        }
    }
}

/// Within a batch whose prices are all representable, the running total
/// only grows.
pub proof fn lemma_total_monotone(kind: CurveKind, spot: int, delta: int, dir: Direction, k: nat, n: nat)
    requires
        k <= n,
        prices_in_range(kind, spot, delta, dir, n),
    ensures
        batch_total(kind, spot, delta, dir, k) <= batch_total(kind, spot, delta, dir, n),
    decreases n,
{
    if k < n {
        let m = (n - 1) as nat;
        assert(in_amount_range(unit_price(kind, spot, delta, dir, m)));
        assert(prices_in_range(kind, spot, delta, dir, m));
        lemma_total_monotone(kind, spot, delta, dir, k, m);
    }
}

/// A linear batch has all its prices representable exactly when its first
/// price and the price past it are.
proof fn lemma_linear_range(spot: int, delta: int, dir: Direction, n: nat)
    requires
        in_amount_range(spot),
        delta >= 0,
    ensures
        prices_in_range(CurveKind::Linear, spot, delta, dir, n) <==> in_amount_range(
            unit_price(CurveKind::Linear, spot, delta, dir, n),
        ),
{
    if in_amount_range(unit_price(CurveKind::Linear, spot, delta, dir, n)) {
        assert forall|k: nat| k <= n implies in_amount_range(
            #[trigger] unit_price(CurveKind::Linear, spot, delta, dir, k),
        ) by {
            assert(k * delta <= n * delta) by (nonlinear_arith)
                requires
                    k <= n,
                    delta >= 0,
            ;
            assert(k * delta >= 0) by (nonlinear_arith)
                requires
                    delta >= 0,
            ;
        }
    }
}

/// Prices a linear batch by its closed form.
fn linear_batch(spot: u64, delta: u64, n: u64, dir: Direction) -> (r: Result<(u64, u64), MMMErrorCode>)
    requires
        n > 0,
    ensures
        r is Ok <==> batch_ok(CurveKind::Linear, spot as int, delta as int, dir, n as nat),
        r is Err ==> r == Err::<(u64, u64), MMMErrorCode>(MMMErrorCode::NumericOverflow),
        r matches Ok((total, next)) ==> total == batch_total(
            CurveKind::Linear,
            spot as int,
            delta as int,
            dir,
            n as nat,
        ) && next == unit_price(CurveKind::Linear, spot as int, delta as int, dir, n as nat),
{
    let ghost s = spot as int;
    let ghost d = delta as int;
    let ghost nn = n as nat;
    proof {
        lemma_linear_closed_form(s, d, dir, nn);
        lemma_linear_range(s, d, dir, nn);
    }
    let n128 = n as u128;
    let d128 = delta as u128;
    let s128 = spot as u128;
    assert(n128 * d128 <= 0xffff_ffff_ffff_ffffu128 * 0xffff_ffff_ffff_ffffu128) by (nonlinear_arith)
        requires
            n128 <= 0xffff_ffff_ffff_ffffu128,
            d128 <= 0xffff_ffff_ffff_ffffu128,
    ;
    assert(n128 * s128 <= 0xffff_ffff_ffff_ffffu128 * 0xffff_ffff_ffff_ffffu128) by (nonlinear_arith)
        requires
            n128 <= 0xffff_ffff_ffff_ffffu128,
            s128 <= 0xffff_ffff_ffff_ffffu128,
    ;
    let nd: u128 = n128 * d128;
    let np: u128 = n128 * s128;
    let next: u64;
    match dir {
        Direction::BuyerBuys => {
            if nd > s128 {
                return Err(MMMErrorCode::NumericOverflow);
            }
            next = (s128 - nd) as u64;
        },
        Direction::BuyerSells => {
            if s128 + nd > 0xffff_ffff_ffff_ffffu128 {
                return Err(MMMErrorCode::NumericOverflow);
            }
            if np > 0xffff_ffff_ffff_ffffu128 {
                assert(2 * batch_total(CurveKind::Linear, s, d, dir, nn) >= 2 * (n * spot)) by (nonlinear_arith)
                    requires
                        2 * batch_total(CurveKind::Linear, s, d, dir, nn) == nn * (2 * s + (nn - 1) * d),
                        nn >= 1,
                        d >= 0,
                        s == spot,
                        nn == n,
                ;
                return Err(MMMErrorCode::NumericOverflow);
            }
            next = (s128 + nd) as u64;
        },
    }
    // Here n * delta fits in an amount; sub is (n - 1) * n * delta / 2.
    let m128 = n128 - 1;
    assert(m128 * d128 <= nd) by (nonlinear_arith)
        requires
            m128 + 1 == n128,
            nd == n128 * d128,
    ;
    let sub: u128 = if n % 2 == 0 {
        assert((n128 / 2) * (m128 * d128) <= 0xffff_ffff_ffff_ffffu128 * 0xffff_ffff_ffff_ffffu128)
            by (nonlinear_arith)
            requires
                n128 / 2 <= 0xffff_ffff_ffff_ffffu128,
                m128 * d128 <= 0xffff_ffff_ffff_ffffu128,
        ;
        (n128 / 2) * (m128 * d128)
    } else {
        assert((m128 / 2) * nd <= 0xffff_ffff_ffff_ffffu128 * 0xffff_ffff_ffff_ffffu128)
            by (nonlinear_arith)
            requires
                m128 / 2 <= 0xffff_ffff_ffff_ffffu128,
                nd <= 0xffff_ffff_ffff_ffffu128,
        ;
        (m128 / 2) * nd
    };
    assert(2 * sub == n128 * (m128 * d128)) by (nonlinear_arith)
        requires
            n128 % 2 == 0 ==> sub == (n128 / 2) * (m128 * d128),
            n128 % 2 == 1 ==> sub == (m128 / 2) * nd,
            nd == n128 * d128,
            m128 + 1 == n128,
            n128 % 2 == 0 || n128 % 2 == 1,
    ;
    let total128: u128 = match dir {
        Direction::BuyerBuys => {
            assert(sub <= np) by (nonlinear_arith)
                requires
                    2 * sub == n128 * (m128 * d128),
                    m128 * d128 <= s128,
                    np == n128 * s128,
            ;
            np - sub
        },
        Direction::BuyerSells => np + sub,
    };
    assert(2 * batch_total(CurveKind::Linear, s, d, dir, nn) == 2 * total128) by (nonlinear_arith)
        requires
            dir == Direction::BuyerBuys ==> 2 * batch_total(CurveKind::Linear, s, d, dir, nn) == nn * (2 * s - (nn - 1) * d),
            dir == Direction::BuyerSells ==> 2 * batch_total(CurveKind::Linear, s, d, dir, nn) == nn * (2 * s + (nn - 1) * d),
            dir == Direction::BuyerBuys ==> total128 == np - sub,
            dir == Direction::BuyerSells ==> total128 == np + sub,
            2 * sub == n128 * (m128 * d128),
            np == n128 * s128,
            nn == n128,
            m128 + 1 == n128,
            s == s128,
            d == d128,
    ;
    if total128 > 0xffff_ffff_ffff_ffffu128 {
        return Err(MMMErrorCode::NumericOverflow);
    }
    Ok((total128 as u64, next))
}

/// Scales a price by one exponential step, rounding down; `None` when the
/// result is not a representable amount.
fn exp_next(price: u64, delta: u64, dir: Direction) -> (r: Option<u64>)
    ensures
        r is Some <==> in_amount_range(exp_step(price as int, delta as int, dir)),
        r matches Some(v) ==> v == exp_step(price as int, delta as int, dir),
{
    let p128 = price as u128;
    match dir {
        Direction::BuyerBuys => {
            if delta <= 10000 {
                let f: u128 = (10000 - delta) as u128;
                assert(p128 * f <= p128 * 10000) by (nonlinear_arith)
                    requires
                        f <= 10000,
                ;
                let v = p128 * f / 10000;
                assert(v <= p128) by (nonlinear_arith)
                    requires
                        v == p128 * f / 10000,
                        f <= 10000,
                        p128 >= 0,
                ;
                assert(f == BP_DENOM - delta);
                assert(v == exp_step(price as int, delta as int, dir));
                Some(v as u64)
            } else if price == 0 {
                assert(0 * (BP_DENOM - delta) == 0) by (nonlinear_arith);
                assert(exp_step(price as int, delta as int, dir) == 0);
                Some(0)
            } else {
                assert(price * (BP_DENOM - delta) <= -1) by (nonlinear_arith)
                    requires
                        price >= 1,
                        delta > BP_DENOM,
                ;
                None
            }
        },
        Direction::BuyerSells => {
            let f: u128 = delta as u128 + 10000;
            match p128.checked_mul(f) {
                Some(m) => {
                    let v = m / 10000;
                    if v > 0xffff_ffff_ffff_ffffu128 {
                        None
                    } else {
                        Some(v as u64)
                    }
                },
                None => {
                    assert(p128 * f >= 0) by (nonlinear_arith)
                        requires
                            f >= 0,
                    ;
                    None
                },
            }
        },
    }
}

/// Prices an exponential batch unit by unit.
fn exp_batch(spot: u64, delta: u64, n: u64, dir: Direction) -> (r: Result<(u64, u64), MMMErrorCode>)
    requires
        n > 0,
    ensures
        r is Ok <==> batch_ok(CurveKind::Exponential, spot as int, delta as int, dir, n as nat),
        r is Err ==> r == Err::<(u64, u64), MMMErrorCode>(MMMErrorCode::NumericOverflow),
        r matches Ok((total, next)) ==> total == batch_total(
            CurveKind::Exponential,
            spot as int,
            delta as int,
            dir,
            n as nat,
        ) && next == unit_price(CurveKind::Exponential, spot as int, delta as int, dir, n as nat),
{
    let ghost kind = CurveKind::Exponential;
    let ghost s = spot as int;
    let ghost d = delta as int;
    let mut total: u64 = 0;
    let mut curr: u64 = spot;
    let mut k: u64 = 0;
    while k < n
        invariant
            k <= n,
            curr == unit_price(kind, s, d, dir, k as nat),
            total == batch_total(kind, s, d, dir, k as nat),
            prices_in_range(kind, s, d, dir, k as nat),
            s == spot,
            d == delta,
            kind == CurveKind::Exponential,
        decreases n - k,
    {
        if curr > 0xffff_ffff_ffff_ffffu64 - total {
            proof {
                assert(batch_total(kind, s, d, dir, (k + 1) as nat) == total + curr);
                if batch_ok(kind, s, d, dir, n as nat) {
                    lemma_total_monotone(kind, s, d, dir, (k + 1) as nat, n as nat);
                }
            }
            return Err(MMMErrorCode::NumericOverflow);
        }
        total = total + curr;
        assert(total == batch_total(kind, s, d, dir, (k + 1) as nat));
        match exp_next(curr, delta, dir) {
            Some(v) => {
                proof {
                    assert(unit_price(kind, s, d, dir, (k + 1) as nat) == exp_step(
                        unit_price(kind, s, d, dir, k as nat),
                        d,
                        dir,
                    ));
                    assert(unit_price(kind, s, d, dir, (k + 1) as nat) == v);
                    assert forall|j: nat| j <= k + 1 implies in_amount_range(
                        #[trigger] unit_price(kind, s, d, dir, j),
                    ) by {
                        if j <= k {
                            assert(in_amount_range(unit_price(kind, s, d, dir, j)));
                        }
                    }
                }
                curr = v;
            },
            None => {
                proof {
                    assert(unit_price(kind, s, d, dir, (k + 1) as nat) == exp_step(curr as int, d, dir));
                    assert(!in_amount_range(unit_price(kind, s, d, dir, (k + 1) as nat)));
                }
                return Err(MMMErrorCode::NumericOverflow);
            },
        }
        k = k + 1;
    }
    Ok((total, curr))
}

/// Prices `n` units of a pool's curve in the given direction: the sum of
/// the unit prices and the spot price one step past the batch.
pub fn get_total_price_and_next_price(pool: &Pool, n: u64, dir: Direction) -> (r: Result<(u64, u64), MMMErrorCode>)
    ensures
        n == 0 && curve_kind_of(pool.curve_type) is Some ==> r == Err::<(u64, u64), MMMErrorCode>(
            MMMErrorCode::NumericOverflow,
        ),
        r == pool_price_spec(*pool, n as nat, dir),
{
    let kind = match CurveKind::from_u8(pool.curve_type) {
        Some(k) => k,
        None => {
            return Err(MMMErrorCode::InvalidCurveType);
        },
    };
    if n == 0 {
        return Err(MMMErrorCode::NumericOverflow);
    }
    match kind {
        CurveKind::Linear => linear_batch(pool.spot_price, pool.curve_delta, n, dir),
        CurveKind::Exponential => exp_batch(pool.spot_price, pool.curve_delta, n, dir),
    }
}

} // verus!
