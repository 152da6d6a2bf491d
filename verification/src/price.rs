//! The pricing engine: a base price that grows with the number of holders, and
//! a dual-phase adjustment for trading volume or inactivity.

use vstd::prelude::*;

verus! {

/// Current volume used when no measured signal is supplied.
pub const DEFAULT_CURRENT_VOLUME: u32 = 10;

/// Average volume used when no measured signal is supplied.
pub const DEFAULT_AVERAGE_VOLUME: u32 = 7;

/// Hours since the last trade used when no measured signal is supplied.
pub const DEFAULT_TIME_SINCE_LAST_TRADE: u32 = 1;

/// The scale of the two adjustment factors below: they count thousandths.
pub const ADJUSTMENT_SCALE: u64 = 1000;

/// The volume adjustment factor, 0.01, in thousandths.
pub const VOLUME_ADJUSTMENT_FACTOR: u64 = 10;

/// The inactivity adjustment factor, 0.005, in thousandths.
pub const INACTIVITY_ADJUSTMENT_FACTOR: u64 = 5;

/// Hours without a trade beyond which the inactivity discount applies.
pub const INACTIVITY_THRESHOLD: u32 = 24;

/// Price added by each of the first ten holders: 0.1.
pub open spec fn early_holder_slope() -> real {
    1real / 10real
}

/// Share of the volume ratio that is added to the price: 0.01.
pub open spec fn volume_adjustment_factor() -> real {
    (VOLUME_ADJUSTMENT_FACTOR as real) / (ADJUSTMENT_SCALE as real)
}

/// Share of the price that is taken off after a quiet period: 0.005.
pub open spec fn inactivity_adjustment_factor() -> real {
    (INACTIVITY_ADJUSTMENT_FACTOR as real) / (ADJUSTMENT_SCALE as real)
}

/// Hours without a trade beyond which the inactivity discount applies: 24.
pub open spec fn inactivity_threshold() -> real {
    INACTIVITY_THRESHOLD as real
}

/// The base price for a number of holders: a slope of 0.1 up to ten holders,
/// a slope of 1 beyond.
pub open spec fn base_price(holders: nat) -> real {
    if holders <= 10 {
        early_holder_slope() * (holders as real)
    } else {
        ((holders as real) - 10real) + 1real
    }
}

/// The price per share on the buy path. After more than 24 hours without a
/// trade the base price is discounted; otherwise it carries a premium in
/// proportion to `current_volume / average_volume`.
pub open spec fn dual_phase_price(
    holders: nat,
    current_volume: real,
    average_volume: real,
    time_since_last_trade: real,
) -> real {
    let base = base_price(holders);
    if time_since_last_trade > inactivity_threshold() {
        base * (1real - inactivity_adjustment_factor())
    } else {
        base * (1real + volume_adjustment_factor() * (current_volume / average_volume))
    }
}

/// What a trade of `amount` shares at `price` comes to, in whole settlement
/// units: the product cut down to an integer, however large.
pub open spec fn exact_units(price: real, amount: nat) -> int {
    (price * (amount as real)).floor()
}

/// The exact units, but no more than a 64-bit transfer can carry.
pub open spec fn capped_units(price: real, amount: nat) -> int {
    let exact = exact_units(price, amount);
    if exact > u64::MAX as int {
        u64::MAX as int
    } else {
        exact
    }
}

/// A price per share as an exact fraction.
#[derive(Clone, Copy, Debug)]
pub struct Price {
    pub numerator: u128,
    pub denominator: u64,
}

impl Price {
    /// A price has a positive denominator.
    pub open spec fn wf(&self) -> bool {
        self.denominator > 0
    }

    /// The real number that the fraction stands for.
    pub open spec fn value(&self) -> real {
        (self.numerator as real) / (self.denominator as real)
    }
}

/// Market activity at the time of a trade. Volumes are share counts over a
/// period, the time is in hours.
#[derive(Clone, Copy, Debug)]
pub struct MarketSignal {
    pub current_volume: u32,
    pub average_volume: u32,
    pub time_since_last_trade: u32,
}

impl MarketSignal {
    /// A signal can be priced when its average volume is not zero, or when
    /// the last trade is so long ago that the volumes do not count.
    pub open spec fn wf(&self) -> bool {
        self.average_volume != 0 || self.time_since_last_trade > INACTIVITY_THRESHOLD
    }

    /// The price per share that this signal gives a buyer at `holders`.
    pub open spec fn price(&self, holders: nat) -> real {
        dual_phase_price(
            holders,
            self.current_volume as real,
            self.average_volume as real,
            self.time_since_last_trade as real,
        )
    }
}

impl Default for MarketSignal {
    fn default() -> (signal: MarketSignal)
        ensures
            signal.current_volume == DEFAULT_CURRENT_VOLUME,
            signal.average_volume == DEFAULT_AVERAGE_VOLUME,
            signal.time_since_last_trade == DEFAULT_TIME_SINCE_LAST_TRADE,
            signal.wf(),
    {
        MarketSignal {
            current_volume: DEFAULT_CURRENT_VOLUME,
            average_volume: DEFAULT_AVERAGE_VOLUME,
            time_since_last_trade: DEFAULT_TIME_SINCE_LAST_TRADE,
        }
    }
}

/// A product of integers is the product of the reals.
proof fn lemma_real_of_product(a: int, b: int)
    ensures
        (a * b) as real == (a as real) * (b as real),
{
    assert((a * b) as real == (a as real) * (b as real)) by (nonlinear_arith);
}

/// Fractions multiply numerator by numerator and denominator by denominator.
proof fn lemma_fraction_product(a: int, b: int, c: int, d: int)
    requires
        b > 0,
        d > 0,
    ensures
        ((a * c) as real) / ((b * d) as real) == ((a as real) / (b as real)) * ((c as real)
            / (d as real)),
{
    lemma_real_of_product(a, c);
    lemma_real_of_product(b, d);
    let (ra, rb, rc, rd) = (a as real, b as real, c as real, d as real);
    assert((ra * rc) / (rb * rd) == (ra / rb) * (rc / rd)) by (nonlinear_arith)
        requires
            rb > 0real,
            rd > 0real,
    ;
}

/// Cutting a fraction of integers down to an integer is integer division.
proof fn lemma_floor_of_fraction(n: int, d: int)
    requires
        n >= 0,
        d > 0,
    ensures
        ((n as real) / (d as real)).floor() == n / d,
{
    let q = n / d;
    let r = n % d;
    assert(n == q * d + r && 0 <= r < d) by (nonlinear_arith)
        requires
            q == n / d,
            r == n % d,
            d > 0,
    ;
    lemma_real_of_product(q, d);
    let x = (n as real) / (d as real);
    assert(x == (q as real) + (r as real) / (d as real)) by (nonlinear_arith)
        requires
            x == (n as real) / (d as real),
            n as real == (q as real) * (d as real) + (r as real),
            d as real > 0real,
    ;
    assert(0real <= (r as real) / (d as real) < 1real) by (nonlinear_arith)
        requires
            0real <= r as real,
            (r as real) < (d as real),
    ;
}

/// After more than 24 hours without a trade, the price is the base price
/// times 0.995, whatever the volumes are.
pub proof fn law_inactivity_discount(
    holders: nat,
    current_volume: real,
    average_volume: real,
    time_since_last_trade: real,
)
    requires
        time_since_last_trade > 24real,
    ensures
        dual_phase_price(holders, current_volume, average_volume, time_since_last_trade)
            == base_price(holders) * (995real / 1000real),
{
    assert(1real - 5real / 1000real == 995real / 1000real) by (nonlinear_arith);
}

/// Up to 24 hours after the last trade, the price is the base price times
/// one plus 0.01 times the ratio of current to average volume.
pub proof fn law_volume_premium(
    holders: nat,
    current_volume: real,
    average_volume: real,
    time_since_last_trade: real,
)
    requires
        time_since_last_trade <= 24real,
    ensures
        dual_phase_price(holders, current_volume, average_volume, time_since_last_trade)
            == base_price(holders) * (1real + (1real / 100real) * (current_volume
            / average_volume)),
{
    assert(10real / 1000real == 1real / 100real) by (nonlinear_arith);
}

/// The base price as numerator and denominator.
fn base_fraction(current_holders: u64) -> (f: (u64, u64))
    ensures
        f.1 == 1 || f.1 == 10,
        f.0 <= current_holders,
        (f.0 as real) / (f.1 as real) == base_price(current_holders as nat),
{
    if current_holders <= 10 {
        proof {
            let h = current_holders as real;
            assert(h / 10real == (1real / 10real) * h) by (nonlinear_arith);
        }
        (current_holders, 10)
    } else {
        let n: u64 = current_holders - 9;
        proof {
            assert((n as real) / 1real == n as real) by (nonlinear_arith);
        }
        (n, 1)
    }
}

/// The base price for `current_holders` holders.
pub fn base_price_from_holders(current_holders: u64) -> (price: Price)
    ensures
        price.wf(),
        price.value() == base_price(current_holders as nat),
        current_holders <= 10 ==> price.value() == early_holder_slope() * (current_holders as real),
        current_holders > 10 ==> price.value() == ((current_holders as real) - 10real) + 1real,
{
    let (numerator, denominator) = base_fraction(current_holders);
    Price { numerator: numerator as u128, denominator }
}

/// The price per share on the buy path, for `current_holders` holders and the
/// given market activity.
pub fn dual_phase_pricing(
    current_holders: u64,
    current_volume: u32,
    average_volume: u32,
    time_since_last_trade: u32,
) -> (price: Price)
    requires
        average_volume != 0 || time_since_last_trade > INACTIVITY_THRESHOLD,
    ensures
        price.wf(),
        price.value() == dual_phase_price(
            current_holders as nat,
            current_volume as real,
            average_volume as real,
            time_since_last_trade as real,
        ),
        time_since_last_trade > 24 ==> price.value() == base_price(current_holders as nat) * (1real
            - 5real / 1000real),
        time_since_last_trade <= 24 ==> price.value() == base_price(current_holders as nat) * (1real
            + (10real / 1000real) * ((current_volume as real) / (average_volume as real))),
{
    let (base_numerator, base_denominator) = base_fraction(current_holders);
    if time_since_last_trade > INACTIVITY_THRESHOLD {
        let kept: u64 = ADJUSTMENT_SCALE - INACTIVITY_ADJUSTMENT_FACTOR;
        assert(base_numerator as u128 * kept as u128 <= u128::MAX) by (nonlinear_arith)
            requires
                base_numerator <= u64::MAX,
                kept == 995,
        ;
        let numerator: u128 = base_numerator as u128 * kept as u128;
        let denominator: u64 = base_denominator * ADJUSTMENT_SCALE;
        proof {
            lemma_fraction_product(
                base_numerator as int,
                base_denominator as int,
                kept as int,
                ADJUSTMENT_SCALE as int,
            );
            assert(995real / 1000real == 1real - 5real / 1000real) by (nonlinear_arith);
        }
        Price { numerator, denominator }
    } else {
        let scale: u64 = ADJUSTMENT_SCALE * (average_volume as u64);
        let factor: u64 = scale + VOLUME_ADJUSTMENT_FACTOR * (current_volume as u64);
        assert(base_numerator as u128 * factor as u128 <= u128::MAX) by (nonlinear_arith)
            requires
                base_numerator <= u64::MAX,
                factor <= 1010 * u32::MAX,
        ;
        assert(0 < base_denominator * scale <= 10 * scale) by (nonlinear_arith)
            requires
                base_denominator == 1 || base_denominator == 10,
                scale > 0,
        ;
        let numerator: u128 = base_numerator as u128 * factor as u128;
        let denominator: u64 = base_denominator * scale;
        proof {
            lemma_fraction_product(
                base_numerator as int,
                base_denominator as int,
                factor as int,
                scale as int,
            );
            let v = current_volume as real;
            let a = average_volume as real;
            assert((1000real * a + 10real * v) / (1000real * a) == 1real + (10real / 1000real) * (v
                / a)) by (nonlinear_arith)
                requires
                    a > 0real,
            ;
        }
        Price { numerator, denominator }
    }
}

/// What a trade of `amount` shares at `price` comes to, in whole settlement
/// units, or `None` where that is more than 64 bits hold.
pub fn checked_settlement_amount(price: &Price, amount: u64) -> (total: Option<u64>)
    requires
        price.wf(),
    ensures
        total is Some <==> exact_units(price.value(), amount as nat) <= u64::MAX,
        total matches Some(units) ==> units as int == exact_units(price.value(), amount as nat),
{
    let ghost n = price.numerator as int * amount as int;
    let ghost d = price.denominator as int;
    proof {
        lemma_real_of_product(price.numerator as int, amount as int);
        let (rn, ra, rd) = (price.numerator as real, amount as real, price.denominator as real);
        assert((rn / rd) * ra == (rn * ra) / rd) by (nonlinear_arith)
            requires
                rd > 0real,
        ;
        assert(n >= 0) by (nonlinear_arith)
            requires
                n == price.numerator as int * amount as int,
        ;
        lemma_floor_of_fraction(n, d);
        assert(exact_units(price.value(), amount as nat) == n / d);
    }
    match price.numerator.checked_mul(amount as u128) {
        Some(product) => {
            let quotient: u128 = product / (price.denominator as u128);
            if quotient > u64::MAX as u128 {
                None
            } else {
                Some(quotient as u64)
            }
        },
        None => {
            assert(n / d > u64::MAX) by (nonlinear_arith)
                requires
                    n > u128::MAX,
                    0 < d <= u64::MAX,
            ;
            None
        },
    }
}

/// What a trade of `amount` shares at `price` moves where the transfer is
/// made whatever it comes to: the exact units, capped at the largest amount
/// that a 64-bit transfer can carry.
pub fn settlement_amount(price: &Price, amount: u64) -> (total: u64)
    requires
        price.wf(),
    ensures
        total as int == capped_units(price.value(), amount as nat),
{
    match checked_settlement_amount(price, amount) {
        Some(units) => units,
        None => u64::MAX,
    }
}

} // verus!
