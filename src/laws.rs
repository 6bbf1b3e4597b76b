use vstd::prelude::*;

use crate::constants::{BP_DENOM, CURVE_KIND_EXP, CURVE_KIND_LINEAR};
use crate::curve::{
    batch_ok, batch_total, exp_step, in_amount_range, lemma_linear_closed_form, pool_price_spec,
    unit_price,
};
use crate::errors::MMMErrorCode;
use crate::fees::fees_spec;
use crate::settlement::{fulfill_buy_spec, fulfill_sell_spec, BuyEnv, FulfillRequest, SellEnv};
use crate::state::SellState;
use crate::state::{CurveKind, Direction, Pool};

verus! {

/// For a linear curve the total of a batch is the arithmetic series: twice
/// the total is the number of units times the sum of the first and last
/// unit prices, and the next spot price lies `n` steps from the current one.
pub proof fn law_linear_total_is_arithmetic_series(pool: Pool, n: nat, dir: Direction)
    requires
        pool.curve_type == CURVE_KIND_LINEAR,
        pool_price_spec(pool, n, dir) is Ok,
    ensures
        ({
            let (total, next) = pool_price_spec(pool, n, dir)->Ok_0;
            let s = pool.spot_price as int;
            let d = pool.curve_delta as int;
            &&& dir == Direction::BuyerBuys ==> 2 * total == n * (2 * s - (n - 1) * d) && next == s
                - n * d
            &&& dir == Direction::BuyerSells ==> 2 * total == n * (2 * s + (n - 1) * d) && next == s
                + n * d
        }),
{
    let s = pool.spot_price as int;
    let d = pool.curve_delta as int;
    lemma_linear_closed_form(s, d, dir, n);
    assert(in_amount_range(unit_price(CurveKind::Linear, s, d, dir, n)));
}

/// For an exponential curve each unit costs the previous unit's price scaled
/// by one plus or minus the delta in basis points, rounded down, and the
/// total is the sum of those unit prices.
pub proof fn law_exponential_total_is_sum_of_steps(pool: Pool, n: nat, dir: Direction)
    requires
        pool.curve_type == CURVE_KIND_EXP,
        pool_price_spec(pool, n, dir) is Ok,
    ensures
        ({
            let (total, next) = pool_price_spec(pool, n, dir)->Ok_0;
            let s = pool.spot_price as int;
            let d = pool.curve_delta as int;
            &&& total == batch_total(CurveKind::Exponential, s, d, dir, n)
            &&& next == unit_price(CurveKind::Exponential, s, d, dir, n)
            &&& unit_price(CurveKind::Exponential, s, d, dir, 0) == s
            &&& forall|k: nat|
                k < n ==> #[trigger] unit_price(CurveKind::Exponential, s, d, dir, k + 1) == exp_step(
                    unit_price(CurveKind::Exponential, s, d, dir, k),
                    d,
                    dir,
                )
        }),
{
    let s = pool.spot_price as int;
    let d = pool.curve_delta as int;
    assert(crate::curve::curve_kind_of(pool.curve_type) == Some(CurveKind::Exponential));
    assert(batch_ok(CurveKind::Exponential, s, d, dir, n));
    crate::curve::lemma_total_monotone(CurveKind::Exponential, s, d, dir, 0, n);
    assert(in_amount_range(unit_price(CurveKind::Exponential, s, d, dir, n)));
}

/// Whenever the maker and taker rates are not negative and the rates
/// charged on the fee base stay within one whole (lp, maker and taker when
/// a buyer takes units; maker and taker when a seller puts units in), every
/// fee is non-negative and the lp fee, maker fee, taker fee and royalty
/// together never exceed the total price.
pub proof fn law_fees_within_total(
    total: u64,
    next: u64,
    lp_fee_bp: u16,
    maker_fee_bp: i16,
    taker_fee_bp: i16,
    royalty_bp: u16,
    dir: Direction,
)
    requires
        fees_spec(total, next, lp_fee_bp, maker_fee_bp, taker_fee_bp, royalty_bp, dir) is Ok,
        maker_fee_bp >= 0,
        taker_fee_bp >= 0,
        dir == Direction::BuyerBuys ==> lp_fee_bp + maker_fee_bp + taker_fee_bp <= BP_DENOM,
        dir == Direction::BuyerSells ==> maker_fee_bp + taker_fee_bp <= BP_DENOM,
    ensures
        ({
            let f = fees_spec(total, next, lp_fee_bp, maker_fee_bp, taker_fee_bp, royalty_bp, dir)->Ok_0;
            &&& f.maker_fee >= 0
            &&& f.taker_fee >= 0
            &&& f.lp_fee + f.maker_fee + f.taker_fee + f.royalty <= total
        }),
{
    let t = total as int;
    let l = lp_fee_bp as int;
    let m = maker_fee_bp as int;
    let k = taker_fee_bp as int;
    let r = royalty_bp as int;
    let dd = BP_DENOM as int;
    let b = match dir {
        Direction::BuyerBuys => t,
        Direction::BuyerSells => t * dd / (dd + l + r),
    };
    let lf = b * l / dd;
    let mf = b * m / dd;
    let tf = b * k / dd;
    assert(0 <= mf && 0 <= tf && 0 <= lf) by (nonlinear_arith)
        requires
            mf == b * m / dd,
            tf == b * k / dd,
            lf == b * l / dd,
            b >= 0 || dir == Direction::BuyerSells,
            m >= 0,
            k >= 0,
            l >= 0,
            dd == 10000,
            dir == Direction::BuyerBuys ==> b == t,
            dir == Direction::BuyerSells ==> b == t * dd / (dd + l + r),
            t >= 0,
            r >= 0,
    ;
    match dir {
        Direction::BuyerBuys => {
            assert(lf + mf + tf <= t) by (nonlinear_arith)
                requires
                    lf == t * l / dd,
                    mf == t * m / dd,
                    tf == t * k / dd,
                    l + m + k <= dd,
                    t >= 0,
                    l >= 0,
                    m >= 0,
                    k >= 0,
                    dd == 10000,
            ;
        },
        Direction::BuyerSells => {
            assert(b * (dd + l + r) <= t * dd && b >= 0) by (nonlinear_arith)
                requires
                    b == t * dd / (dd + l + r),
                    t >= 0,
                    l >= 0,
                    r >= 0,
                    dd == 10000,
            ;
            assert(lf + mf + tf <= t) by (nonlinear_arith)
                requires
                    lf == b * l / dd,
                    mf == b * m / dd,
                    tf == b * k / dd,
                    m + k <= dd,
                    b * (dd + l + r) <= t * dd,
                    b >= 0,
                    l >= 0,
                    m >= 0,
                    k >= 0,
                    r >= 0,
                    dd == 10000,
            ;
        },
    }
}

/// Starting one exponential step later is the same as taking one step
/// more.
proof fn lemma_exp_shift(s: int, d: int, dir: Direction, j: nat)
    ensures
        unit_price(CurveKind::Exponential, s, d, dir, j + 1) == unit_price(
            CurveKind::Exponential,
            exp_step(s, d, dir),
            d,
            dir,
            j,
        ),
    decreases j,
{
    let e = CurveKind::Exponential;
    if j > 0 {
        let m = (j - 1) as nat;
        lemma_exp_shift(s, d, dir, m);
        assert(m + 1 == j);
        assert(unit_price(e, s, d, dir, j + 1) == exp_step(unit_price(e, s, d, dir, j), d, dir));
        assert(unit_price(e, exp_step(s, d, dir), d, dir, j) == exp_step(
            unit_price(e, exp_step(s, d, dir), d, dir, m),
            d,
            dir,
        ));
    } else {
        assert(unit_price(e, s, d, dir, 1) == exp_step(unit_price(e, s, d, dir, 0), d, dir));
    }
}

/// Rising exponential steps keep their order and stay non-negative.
proof fn lemma_exp_up_monotone(y1: int, y2: int, d: int, j: nat)
    requires
        0 <= y1 <= y2,
        d >= 0,
    ensures
        0 <= unit_price(CurveKind::Exponential, y1, d, Direction::BuyerSells, j) <= unit_price(
            CurveKind::Exponential,
            y2,
            d,
            Direction::BuyerSells,
            j,
        ),
    decreases j,
{
    if j > 0 {
        let m = (j - 1) as nat;
        lemma_exp_up_monotone(y1, y2, d, m);
        let a = unit_price(CurveKind::Exponential, y1, d, Direction::BuyerSells, m);
        let b = unit_price(CurveKind::Exponential, y2, d, Direction::BuyerSells, m);
        assert(0 <= a * (BP_DENOM + d) / (BP_DENOM as int) <= b * (BP_DENOM + d) / (BP_DENOM as int))
            by (nonlinear_arith)
            requires
                0 <= a <= b,
                d >= 0,
                BP_DENOM == 10000,
        ;
    }
}

/// Going down one exponential step and back up never ends above the start.
proof fn lemma_exp_down_up(x: int, d: int)
    requires
        x >= 0,
        d >= 0,
        exp_step(x, d, Direction::BuyerBuys) >= 0,
    ensures
        exp_step(exp_step(x, d, Direction::BuyerBuys), d, Direction::BuyerSells) <= x,
{
    let dd = BP_DENOM as int;
    let y = exp_step(x, d, Direction::BuyerBuys);
    let z = exp_step(y, d, Direction::BuyerSells);
    assert(z <= x) by (nonlinear_arith)
        requires
            y == x * (dd - d) / dd,
            z == y * (dd + d) / dd,
            y >= 0,
            x >= 0,
            d >= 0,
            dd == 10000,
    ;
}

/// `k` exponential steps down then `k` back up never end above the start.
proof fn lemma_exp_round_trip(s: int, d: int, k: nat)
    requires
        s >= 0,
        d >= 0,
        forall|j: nat| j <= k ==> #[trigger] unit_price(CurveKind::Exponential, s, d, Direction::BuyerBuys, j) >= 0,
    ensures
        unit_price(
            CurveKind::Exponential,
            unit_price(CurveKind::Exponential, s, d, Direction::BuyerBuys, k),
            d,
            Direction::BuyerSells,
            k,
        ) <= s,
    decreases k,
{
    if k > 0 {
        let m = (k - 1) as nat;
        lemma_exp_round_trip(s, d, m);
        let x = unit_price(CurveKind::Exponential, s, d, Direction::BuyerBuys, m);
        assert(x >= 0);
        let y = exp_step(x, d, Direction::BuyerBuys);
        assert(unit_price(CurveKind::Exponential, s, d, Direction::BuyerBuys, k) == y);
        assert(y >= 0);
        lemma_exp_shift(y, d, Direction::BuyerSells, m);
        assert(m + 1 == k);
        lemma_exp_down_up(x, d);
        let up1 = exp_step(y, d, Direction::BuyerSells);
        assert(up1 >= 0) by (nonlinear_arith)
            requires
                up1 == y * (BP_DENOM + d) / (BP_DENOM as int),
                y >= 0,
                d >= 0,
                BP_DENOM == 10000,
        ;
        lemma_exp_up_monotone(up1, x, d, m);
    }
}

/// Buying `k` units and then selling `k` units back moves the spot price
/// back to where it was on a linear curve, and never above where it was on
/// an exponential one (each step rounds down); the price never goes below
/// zero, as a batch that would take it there fails.
pub proof fn law_round_trip(pool: Pool, k: nat)
    requires
        pool_price_spec(pool, k, Direction::BuyerBuys) is Ok,
        pool_price_spec(
            Pool { spot_price: pool_price_spec(pool, k, Direction::BuyerBuys)->Ok_0.1, ..pool },
            k,
            Direction::BuyerSells,
        ) is Ok,
    ensures
        ({
            let mid = pool_price_spec(pool, k, Direction::BuyerBuys)->Ok_0.1;
            let back = pool_price_spec(Pool { spot_price: mid, ..pool }, k, Direction::BuyerSells)->Ok_0.1;
            &&& mid <= pool.spot_price
            &&& pool.curve_type == CURVE_KIND_LINEAR ==> back == pool.spot_price
            &&& pool.curve_type == CURVE_KIND_EXP ==> back <= pool.spot_price
        }),
{
    let s = pool.spot_price as int;
    let d = pool.curve_delta as int;
    let kind = crate::curve::curve_kind_of(pool.curve_type)->Some_0;
    let mid = pool_price_spec(pool, k, Direction::BuyerBuys)->Ok_0.1;
    assert(batch_ok(kind, s, d, Direction::BuyerBuys, k));
    assert(in_amount_range(unit_price(kind, s, d, Direction::BuyerBuys, k)));
    assert(mid == unit_price(kind, s, d, Direction::BuyerBuys, k));
    let p2 = Pool { spot_price: mid, ..pool };
    assert(batch_ok(kind, mid as int, d, Direction::BuyerSells, k));
    assert(in_amount_range(unit_price(kind, mid as int, d, Direction::BuyerSells, k)));
    if pool.curve_type == CURVE_KIND_LINEAR {
        assert(k * d >= 0) by (nonlinear_arith)
            requires
                d >= 0,
        ;
    } else {
        assert(forall|j: nat| j <= k ==> #[trigger] unit_price(kind, s, d, Direction::BuyerBuys, j) >= 0) by {
            assert forall|j: nat| j <= k implies #[trigger] unit_price(kind, s, d, Direction::BuyerBuys, j) >= 0 by {
                assert(in_amount_range(unit_price(kind, s, d, Direction::BuyerBuys, j)));
            }
        }
        lemma_exp_round_trip(s, d, k);
        assert(unit_price(kind, s, d, Direction::BuyerBuys, k) <= s) by {
            assert(in_amount_range(unit_price(kind, s, d, Direction::BuyerBuys, 0)));
            lemma_exp_down_not_above(s, d, k);
        }
    }
}

/// Falling exponential steps that stay non-negative never rise.
proof fn lemma_exp_down_not_above(s: int, d: int, k: nat)
    requires
        s >= 0,
        d >= 0,
        forall|j: nat| j <= k ==> #[trigger] unit_price(CurveKind::Exponential, s, d, Direction::BuyerBuys, j) >= 0,
    ensures
        unit_price(CurveKind::Exponential, s, d, Direction::BuyerBuys, k) <= s,
    decreases k,
{
    if k > 0 {
        let m = (k - 1) as nat;
        lemma_exp_down_not_above(s, d, m);
        let x = unit_price(CurveKind::Exponential, s, d, Direction::BuyerBuys, m);
        assert(x >= 0);
        assert(unit_price(CurveKind::Exponential, s, d, Direction::BuyerBuys, k) >= 0);
        assert(x * (BP_DENOM - d) / (BP_DENOM as int) <= x) by (nonlinear_arith)
            requires
                x >= 0,
                d >= 0,
                BP_DENOM == 10000,
        ;
    }
}

/// A fulfillment of zero units is refused, in either direction.
pub proof fn law_zero_units_rejected(pool: Pool, ss: SellState, req: FulfillRequest, sell_env: SellEnv, buy_env: BuyEnv)
    requires
        req.asset_amount == 0,
    ensures
        fulfill_sell_spec(pool, ss, req, sell_env) is Err,
        fulfill_buy_spec(pool, ss, req, buy_env) is Err,
{
}

/// A buyer's bound equal to the payment that a fulfillment computes is
/// accepted with the same outcome, and a bound one unit lower is refused
/// as an invalid requested price.
pub proof fn law_buyer_bound_is_exact(pool: Pool, ss: SellState, req: FulfillRequest, env: SellEnv)
    requires
        fulfill_sell_spec(pool, ss, req, env) is Ok,
    ensures
        ({
            let pay = fulfill_sell_spec(pool, ss, req, env)->Ok_0.2.payment_amount;
            &&& fulfill_sell_spec(pool, ss, FulfillRequest { payment_bound: pay, ..req }, env)
                == fulfill_sell_spec(pool, ss, req, env)
            &&& pay > 0 ==> fulfill_sell_spec(
                pool,
                ss,
                FulfillRequest { payment_bound: (pay - 1) as u64, ..req },
                env,
            ) == Err::<(Pool, SellState, crate::settlement::SellSettlement), MMMErrorCode>(
                MMMErrorCode::InvalidRequestedPrice,
            )
        }),
{
}

/// A seller's bound equal to the payment that a fulfillment computes is
/// accepted with the same outcome, and a bound one unit higher is refused
/// as an invalid requested price.
pub proof fn law_seller_bound_is_exact(pool: Pool, ss: SellState, req: FulfillRequest, env: BuyEnv)
    requires
        fulfill_buy_spec(pool, ss, req, env) is Ok,
    ensures
        ({
            let pay = fulfill_buy_spec(pool, ss, req, env)->Ok_0.2.payment_amount;
            &&& fulfill_buy_spec(pool, ss, FulfillRequest { payment_bound: pay, ..req }, env)
                == fulfill_buy_spec(pool, ss, req, env)
            &&& pay < u64::MAX ==> fulfill_buy_spec(
                pool,
                ss,
                FulfillRequest { payment_bound: (pay + 1) as u64, ..req },
                env,
            ) == Err::<(Pool, SellState, crate::settlement::BuySettlement), MMMErrorCode>(
                MMMErrorCode::InvalidRequestedPrice,
            )
        }),
{
}

} // verus!
