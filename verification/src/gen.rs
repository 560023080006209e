//! The synthetic trade generator: a non-stationary multiplicative random
//! walk over a fixed-point price. Prices are whole cents, trade sizes are
//! thousandths of a unit, and the per-tick perturbation and the configured
//! volatility are thousandths of a percent, so one tick multiplies the price
//! by `(SCALE + delta) / SCALE` with `delta` drawn uniformly from
//! `[-volatility, volatility]`.
use vstd::arithmetic::div_mod::lemma_div_is_ordered;
use vstd::prelude::*;

use crate::frames::{render_trade_payload, spec_trade_payload};

verus! {

/// One hundred percent, in thousandths of a percent.
pub const PCT_SCALE: u64 = 100000;

/// The largest representable price, in cents.
pub const MAX_PRICE_CENTS: u64 = 0x1000000000000;

/// The running state of the generator: the current price in cents.
pub struct GenState {
    pub price_cents: u64,
}

/// Relies on `rand::random_range` over `lo..hi`: a value drawn uniformly
/// from the half-open range; the function panics only on an empty range,
/// which the precondition rules out. Nothing more can be promised of a
/// random draw.
#[verifier::external_body]
fn draw_in_range(lo: i64, hi: i64) -> (r: i64)
    requires
        lo < hi,
    ensures
        lo <= r < hi,
{
    rand::random_range(lo..hi)
}

/// Relies on `rand::random::<bool>`: a fair coin. Nothing can be promised
/// of the outcome.
#[verifier::external_body]
fn draw_coin() -> (r: bool)
{
    rand::random::<bool>()
}

/// The price after one tick with perturbation `delta`: the multiplicative
/// step, floored to whole cents and clamped to the representable band
/// (never below one cent, never above the largest representable price).
pub open spec fn spec_step_price(price: u64, delta: int) -> int {
    let raw = (price * (PCT_SCALE + delta)) / (PCT_SCALE as int);
    if raw < 1 {
        1
    } else if raw > MAX_PRICE_CENTS {
        MAX_PRICE_CENTS as int
    } else {
        raw
    }
}

/// Applies one multiplicative price step with a known perturbation.
pub fn apply_step(price: u64, delta: i64) -> (r: u64)
    requires
        1 <= price <= MAX_PRICE_CENTS,
        -(PCT_SCALE as i64) <= delta <= PCT_SCALE as i64,
    ensures
        r == spec_step_price(price, delta as int),
{
    let factor: u64 = ((PCT_SCALE as i64) + delta) as u64;
    proof {
        assert(factor <= 2 * PCT_SCALE);
        assert(price * factor <= MAX_PRICE_CENTS * (2 * PCT_SCALE)) by (nonlinear_arith)
            requires
                price <= MAX_PRICE_CENTS,
                factor <= 2 * PCT_SCALE,
                0 <= price,
                0 <= factor,
        ;
    }
    let prod: u128 = (price as u128) * (factor as u128);
    let q: u128 = prod / (PCT_SCALE as u128);
    proof {
        lemma_div_is_ordered(
            price * factor,
            MAX_PRICE_CENTS * (2 * PCT_SCALE),
            PCT_SCALE as int,
        );
        assert(MAX_PRICE_CENTS * (2 * PCT_SCALE) / (PCT_SCALE as int) == 2 * MAX_PRICE_CENTS);
    }
    if q < 1 {
        1
    } else if q > MAX_PRICE_CENTS as u128 {
        MAX_PRICE_CENTS
    } else {
        q as u64
    }
}

/// Law: each step of the synthetic price walk stays within the configured
/// volatility band: the next price lies between
/// `price * (SCALE - vol) / SCALE` and `price * (SCALE + vol) / SCALE`.
/// The statement excludes the inputs on which the clamp to the
/// representable band bites: the lower edge of the band must be at least
/// one cent, and the price must leave the upper clamp out of reach.
pub proof fn lemma_step_within_band(price: u64, delta: int, vol: int)
    requires
        0 <= vol <= PCT_SCALE,
        -vol <= delta <= vol,
        PCT_SCALE <= price * (PCT_SCALE - vol),
        2 * price <= MAX_PRICE_CENTS,
    ensures
        price * (PCT_SCALE - vol) / (PCT_SCALE as int) <= spec_step_price(price, delta),
        spec_step_price(price, delta) <= price * (PCT_SCALE + vol) / (PCT_SCALE as int),
{
    assert(price * (PCT_SCALE - vol) <= price * (PCT_SCALE + delta) <= price * (PCT_SCALE
        + vol)) by (nonlinear_arith)
        requires
            0 <= price,
            -vol <= delta <= vol,
    ;
    lemma_div_is_ordered(price * (PCT_SCALE - vol), price * (PCT_SCALE + delta), PCT_SCALE as int);
    lemma_div_is_ordered(price * (PCT_SCALE + delta), price * (PCT_SCALE + vol), PCT_SCALE as int);
    assert(price * (PCT_SCALE - vol) / (PCT_SCALE as int) >= 1) by {
        lemma_div_is_ordered(PCT_SCALE as int, price * (PCT_SCALE - vol), PCT_SCALE as int);
    }
    assert(price * (PCT_SCALE + vol) <= price * (2 * PCT_SCALE)) by (nonlinear_arith)
        requires
            0 <= price,
            vol <= PCT_SCALE,
    ;
    assert(price * (2 * PCT_SCALE) == (2 * price) * PCT_SCALE) by (nonlinear_arith);
    assert((2 * price) * PCT_SCALE / (PCT_SCALE as int) == 2 * price) by (nonlinear_arith)
        requires
            PCT_SCALE > 0,
    ;
    lemma_div_is_ordered(price * (PCT_SCALE + vol), (2 * price) * PCT_SCALE, PCT_SCALE as int);
}

/// One random price step within the volatility band.
pub fn step_price(price: u64, vol: u32) -> (r: u64)
    requires
        1 <= price <= MAX_PRICE_CENTS,
        vol <= PCT_SCALE,
    ensures
        exists|d: int|
            -(vol as int) <= d <= vol as int && r == spec_step_price(price, d),
{
    let delta = draw_in_range(-(vol as i64), (vol as i64) + 1);
    let r = apply_step(price, delta);
    proof {
        assert(-(vol as int) <= delta as int <= vol as int && r == spec_step_price(
            price,
            delta as int,
        ));
    }
    r
}

impl GenState {
    /// Seeds the walk at `base_cents` plus a uniform jitter below 2000
    /// whole units.
    pub fn seeded(base_cents: u64) -> (s: GenState)
        requires
            1 <= base_cents,
            base_cents + 200000 <= MAX_PRICE_CENTS,
        ensures
            base_cents <= s.price_cents < base_cents + 200000,
    {
        let jitter = draw_in_range(0, 200000);
        GenState { price_cents: base_cents + (jitter as u64) }
    }

    /// Advances the walk one tick with known draws and renders the trade
    /// payload for the new price: the deterministic core of a tick,
    /// verified for every possible draw.
    pub fn advance(&mut self, delta: i64, size_milli: u64, buy: bool) -> (payload: Vec<u8>)
        requires
            1 <= old(self).price_cents <= MAX_PRICE_CENTS,
            -(PCT_SCALE as i64) <= delta <= PCT_SCALE as i64,
            1 <= size_milli < 1000,
        ensures
            final(self).price_cents == spec_step_price(old(self).price_cents, delta as int),
            1 <= final(self).price_cents <= MAX_PRICE_CENTS,
            payload@ == spec_trade_payload(final(self).price_cents, size_milli, buy),
    {
        self.price_cents = apply_step(self.price_cents, delta);
        render_trade_payload(self.price_cents, size_milli, buy)
    }

    /// One tick of the synthetic generator: draws the perturbation, the
    /// trade size and the side, advances the price, and returns the trade
    /// payload.
    pub fn next_trade(&mut self, vol: u32) -> (payload: Vec<u8>)
        requires
            1 <= old(self).price_cents <= MAX_PRICE_CENTS,
            vol <= PCT_SCALE,
        ensures
            1 <= final(self).price_cents <= MAX_PRICE_CENTS,
            exists|d: int|
                -(vol as int) <= d <= vol as int && final(self).price_cents == spec_step_price(
                    old(self).price_cents,
                    d,
                ),
            exists|size: u64, buy: bool|
                1 <= size < 1000 && payload@ == spec_trade_payload(
                    final(self).price_cents,
                    size,
                    buy,
                ),
    {
        let delta = draw_in_range(-(vol as i64), (vol as i64) + 1);
        let size = draw_in_range(1, 1000);
        let buy = draw_coin();
        let payload = self.advance(delta, size as u64, buy);
        proof {
            assert(-(vol as int) <= delta as int <= vol as int && self.price_cents
                == spec_step_price(old(self).price_cents, delta as int));
            assert(1 <= (size as u64) && (size as u64) < 1000 && payload@ == spec_trade_payload(
                self.price_cents,
                size as u64,
                buy,
            ));
        }
        payload
    }
}

} // verus!
