//! The numeric derivations: supply and inflation, market capitalisation,
//! difficulty and graph rate, mining economics, block weight and size.
//! Every quantity is an integer; a value with decimals is counted in
//! hundredths (or thousandths) and rounded half up from the exact ratio.

use vstd::prelude::*;

verus! {

/// Coins created by each block.
pub const BLOCK_REWARD: u128 = 60;

/// Seconds in a year of 365 days; one coin is created per second.
pub const SECONDS_PER_YEAR: u128 = 31536000;

/// The supply against which the soft supply is expressed.
pub const SOFT_SUPPLY_CAP: u128 = 3150000000;

/// Number of blocks over which difficulty is averaged.
pub const DIFFICULTY_WINDOW: u64 = 1440;

/// Weight units of one kernel.
pub const KERNEL_WEIGHT: u128 = 3;

/// Weight units of one input.
pub const INPUT_WEIGHT: u128 = 1;

/// Weight units of one output.
pub const OUTPUT_WEIGHT: u128 = 21;

/// The weight of a full block.
pub const MAX_BLOCK_WEIGHT: u128 = 40000;

/// Serialized bytes of one kernel.
pub const KERNEL_SIZE: u128 = 106;

/// Serialized bytes of one input.
pub const INPUT_SIZE: u128 = 34;

/// Serialized bytes of one output.
pub const OUTPUT_SIZE: u128 = 708;

/// Numerator of the graph rate: one graph weighs 42.
pub const RATE_FACTOR: u128 = 42;

/// Denominator of the graph rate: block time 60 s times the scale 16384.
pub const RATE_DIVISOR: u128 = 983040;

/// Fee units in one coin.
pub const COIN_UNITS: u64 = 1000000000;

/// Bytes in the gigabyte in which disk usage is shown.
pub const GIGABYTE: u64 = 1000000000;

/// Dollars per coin of the reference miner, as a ratio to the graph rate.
/// The miner draws 0.12 kW at 0.07 dollars per kWh and finds
/// `1.2 / rate * 3600` coins per hour, so one coin costs
/// `0.12 * 0.07 / (1.2 * 3600) * rate = rate * 84 / 43200000` dollars.
pub const COST_FACTOR: u128 = 84;

pub const COST_DIVISOR: u128 = 43200000;

/// Kilowatt-hours per coin of the reference miner, as a ratio to the
/// graph rate: `0.12 / (1.2 * 3600) * rate = rate / 36000`.
pub const ENERGY_DIVISOR: u128 = 36000;

/// The quotient `n / d` rounded to the nearest integer, a half going up.
pub open spec fn round_half_up(n: nat, d: nat) -> nat {
    n / d + if 2 * (n % d) >= d {
        1nat
    } else {
        0nat
    }
}

/// `n / d`, rounded to the nearest integer with halves going up.
pub fn rounded_quotient(n: u128, d: u128) -> (q: u128)
    requires
        d > 0,
    ensures
        q == round_half_up(n as nat, d as nat),
{
    let whole = n / d;
    let rest = n % d;
    if rest >= d - rest {
        proof {
            vstd::arithmetic::div_mod::lemma_div_is_ordered_by_denominator(n as int, 2, d as int);
        }
        whole + 1
    } else {
        whole
    }
}

/// The rounded quotient is the whole number nearest to the exact one: it
/// is off by half a unit at most, and by a full half only downwards.
pub proof fn law_rounding_is_nearest(n: nat, d: nat)
    requires
        d > 0,
    ensures
        2 * n - d < 2 * (round_half_up(n, d) * d) <= 2 * n + d,
{
    let q = n / d;
    let r = n % d;
    vstd::arithmetic::div_mod::lemma_fundamental_div_mod(n as int, d as int);
    if 2 * r >= d {
        assert((q + 1) * d == d * q + d) by (nonlinear_arith);
    } else {
        assert(q * d == d * q) by (nonlinear_arith);
    }
}

/// Hundredths of a percent that `part` is of `whole`, rounded half up.
pub open spec fn percent_hundredths(part: nat, whole: nat) -> nat {
    round_half_up(part * 100 * 100, whole)
}

/// Coins in circulation once the block at `height` exists: the block index
/// starts at zero and every block adds the same reward.
pub open spec fn supply_at(height: nat) -> nat {
    (height + 1) * 60
}

/// Coin supply at `height`.
pub fn coin_supply(height: u64) -> (supply: u128)
    ensures
        supply == supply_at(height as nat),
        supply >= 60,
{
    (height as u128 + 1) * BLOCK_REWARD
}

/// Yearly inflation in hundredths of a percent: the coins of one year over
/// the supply.
pub open spec fn inflation_hundredths(supply: nat) -> nat {
    percent_hundredths(31536000, supply)
}

/// Yearly inflation for the supply at some block height, in hundredths
/// of a percent.
pub fn inflation_rate(height: u64) -> (rate: u128)
    ensures
        rate == inflation_hundredths(supply_at(height as nat)),
{
    rounded_quotient(SECONDS_PER_YEAR * 100 * 100, coin_supply(height))
}

/// Supply as hundredths of a percent of the soft cap.
pub open spec fn soft_supply_hundredths(supply: nat) -> nat {
    percent_hundredths(supply, 3150000000)
}

/// Soft supply for the supply at some block height.
pub fn soft_supply_rate(height: u64) -> (rate: u128)
    ensures
        rate == soft_supply_hundredths(supply_at(height as nat)),
{
    rounded_quotient(coin_supply(height) * 100 * 100, SOFT_SUPPLY_CAP)
}

/// Whole units of `supply * price / scale`: the capitalisation for a price
/// counted in `1/scale` of the currency.
pub open spec fn capitalisation(supply: nat, price: nat, scale: nat) -> nat {
    supply * price / scale
}

/// The division in `capitalisation` can be taken apart so that no
/// intermediate product leaves 128 bits.
proof fn lemma_split_product(q: nat, r: nat, p: nat, s: nat)
    requires
        s > 0,
        r < s,
    ensures
        ((q * s + r) * p) / s == q * p + (r * p) / s,
{
    assert((q * s + r) * p == s * (q * p) + r * p) by (nonlinear_arith);
    vstd::arithmetic::div_mod::lemma_fundamental_div_mod((r * p) as int, s as int);
    let a = (r * p) as int;
    let si = s as int;
    assert((s * (q * p) + r * p) as int == si * ((q * p) as int + a / si) + a % si)
        by (nonlinear_arith)
        requires
            a == si * (a / si) + a % si,
            a == (r * p) as int,
            si == s as int,
    ;
    vstd::arithmetic::div_mod::lemma_fundamental_div_mod_converse(
        (s * (q * p) + r * p) as int,
        si,
        (q * p) as int + a / si,
        a % si,
    );
}

/// Thousandths in a dollar, the unit of the dollar price.
pub const USD_SCALE: u32 = 1000;

/// Hundred-millionths in a bitcoin, the unit of the bitcoin price.
pub const BTC_SCALE: u32 = 100000000;

/// Market capitalisation in whole dollars at a price in thousandths of a
/// dollar, rounded down.
pub fn market_cap_usd(height: u64, price: u64) -> (cap: u128)
    ensures
        cap == capitalisation(supply_at(height as nat), price as nat, 1000),
{
    market_cap(height, price, USD_SCALE)
}

/// Market capitalisation in whole bitcoins at a price in
/// hundred-millionths of a bitcoin, rounded down.
pub fn market_cap_btc(height: u64, price: u64) -> (cap: u128)
    ensures
        cap == capitalisation(supply_at(height as nat), price as nat, 100000000),
{
    market_cap(height, price, BTC_SCALE)
}

/// Market capitalisation of the supply at `height` for a price counted
/// in `1/scale` units, in whole units of the currency (rounded down).
fn market_cap(height: u64, price: u64, scale: u32) -> (cap: u128)
    requires
        scale >= 64,
    ensures
        cap == capitalisation(supply_at(height as nat), price as nat, scale as nat),
{
    let supply = coin_supply(height);
    let s = scale as u128;
    let q = supply / s;
    let r = supply % s;
    proof {
        lemma_split_product(q as nat, r as nat, price as nat, scale as nat);
        vstd::arithmetic::div_mod::lemma_fundamental_div_mod(supply as int, s as int);
        vstd::arithmetic::div_mod::lemma_div_is_ordered_by_denominator(supply as int, 64, s as int);
        assert(r * (price as u128) <= 0x1_0000_0000 * 0x1_0000_0000_0000_0000) by (nonlinear_arith)
            requires
                r < 0x1_0000_0000,
                price < 0x1_0000_0000_0000_0000,
        ;
        assert(q * (price as u128) <= 0x1_0000_0000_0000_0000 * 0x1_0000_0000_0000_0000 / 64 * 61)
            by (nonlinear_arith)
            requires
                q <= supply / 64,
                supply <= 61 * 0x1_0000_0000_0000_0000,
                price < 0x1_0000_0000_0000_0000,
        ;
    }
    q * (price as u128) + (r * (price as u128)) / s
}

/// Average difficulty of the blocks of the window, from the total
/// difficulty at its two ends.
pub open spec fn window_difficulty(tip_total: nat, base_total: nat) -> nat {
    ((tip_total - base_total) / 1440) as nat
}

/// Network difficulty over the difficulty window; `None` where the total
/// difficulty at the tip is below the one at the window's start.
pub fn network_difficulty(tip_total: u64, base_total: u64) -> (difficulty: Option<u64>)
    ensures
        difficulty == if tip_total >= base_total {
            Some(window_difficulty(tip_total as nat, base_total as nat) as u64)
        } else {
            None
        },
        tip_total >= base_total ==> window_difficulty(tip_total as nat, base_total as nat)
            <= u64::MAX,
{
    if tip_total >= base_total {
        Some((tip_total - base_total) / DIFFICULTY_WINDOW)
    } else {
        None
    }
}

/// Graph rate in hundredths of a graph per second:
/// `difficulty * 42 / 60 / 16384`.
pub open spec fn graph_rate_hundredths(difficulty: nat) -> nat {
    round_half_up(difficulty * 42 * 100, 983040)
}

/// Graph rate in hundredths of a thousand graphs per second.
pub open spec fn kilo_graph_rate_hundredths(difficulty: nat) -> nat {
    round_half_up(difficulty * 42 * 100, 983040 * 1000)
}

/// Whether the rate is shown in thousands: above 1000 graphs per second.
pub open spec fn rate_in_thousands(difficulty: nat) -> bool {
    difficulty * 42 > 1000 * 983040
}

/// Graph rate for a difficulty, in hundredths of a graph per second.
pub fn graph_rate(difficulty: u64) -> (rate: u128)
    ensures
        rate == graph_rate_hundredths(difficulty as nat),
{
    rounded_quotient((difficulty as u128) * RATE_FACTOR * 100, RATE_DIVISOR)
}

/// Graph rate for a difficulty, in hundredths of a thousand graphs per
/// second: the form kept in the daily series.
pub fn kilo_graph_rate(difficulty: u64) -> (rate: u128)
    ensures
        rate == kilo_graph_rate_hundredths(difficulty as nat),
{
    rounded_quotient((difficulty as u128) * RATE_FACTOR * 100, RATE_DIVISOR * 1000)
}

/// Whether the graph rate for `difficulty` exceeds 1000 graphs per second.
pub fn shown_in_thousands(difficulty: u64) -> (kilo: bool)
    ensures
        kilo == rate_in_thousands(difficulty as nat),
{
    (difficulty as u128) * RATE_FACTOR > 1000 * RATE_DIVISOR
}

/// Cost of producing one coin in thousandths of a dollar:
/// `rate * 84 / 43200000` dollars with `rate = difficulty * 42 / 983040`.
pub open spec fn production_cost_thousandths(difficulty: nat) -> nat {
    round_half_up(difficulty * 42 * 84 * 1000, 983040 * 43200000)
}

/// Price over production cost, in hundredths. `price` is counted in
/// thousandths of a dollar; the difficulty is positive.
pub open spec fn reward_ratio_hundredths(price: nat, difficulty: nat) -> nat {
    round_half_up(price * 100 * (983040 * 43200000), 1000 * (difficulty * 42 * 84))
}

/// Price of power, in hundredths of a dollar per kWh, at which mining one
/// coin costs what the coin sells for: the price over the energy that one
/// coin takes, `rate / 36000` kWh.
pub open spec fn breakeven_hundredths(price: nat, difficulty: nat) -> nat {
    round_half_up(price * 100 * (983040 * 36000), 1000 * (difficulty * 42))
}

/// Production cost of one coin, in thousandths of a dollar.
pub fn production_cost(difficulty: u64) -> (cost: u128)
    ensures
        cost == production_cost_thousandths(difficulty as nat),
{
    rounded_quotient(
        (difficulty as u128) * RATE_FACTOR * COST_FACTOR * 1000,
        RATE_DIVISOR * COST_DIVISOR,
    )
}

/// Reward ratio in hundredths, for a price in thousandths of a dollar;
/// `None` at a difficulty of zero, where a coin costs nothing.
pub fn reward_ratio(price: u64, difficulty: u64) -> (ratio: Option<u128>)
    ensures
        ratio == if difficulty == 0 {
            None
        } else {
            Some(reward_ratio_hundredths(price as nat, difficulty as nat) as u128)
        },
        difficulty > 0 ==> reward_ratio_hundredths(price as nat, difficulty as nat) <= u128::MAX,
{
    if difficulty == 0 {
        None
    } else {
        let scale: u128 = RATE_DIVISOR * COST_DIVISOR;
        Some(
            rounded_quotient(
                (price as u128) * 100 * scale,
                ((difficulty as u128) * RATE_FACTOR * COST_FACTOR) * 1000,
            ),
        )
    }
}

/// Break-even power price in hundredths of a dollar per kWh, for a coin
/// price in thousandths of a dollar; `None` at a difficulty of zero,
/// where a coin takes no energy.
pub fn breakeven_cost(price: u64, difficulty: u64) -> (cost: Option<u128>)
    ensures
        cost == if difficulty == 0 {
            None
        } else {
            Some(breakeven_hundredths(price as nat, difficulty as nat) as u128)
        },
        difficulty > 0 ==> breakeven_hundredths(price as nat, difficulty as nat) <= u128::MAX,
{
    if difficulty == 0 {
        None
    } else {
        let scale: u128 = RATE_DIVISOR * ENERGY_DIVISOR;
        Some(
            rounded_quotient(
                (price as u128) * 100 * scale,
                ((difficulty as u128) * RATE_FACTOR) * 1000,
            ),
        )
    }
}

/// Weight of a block with the given numbers of kernels, inputs and
/// outputs.
pub open spec fn weight_of(kernels: nat, inputs: nat, outputs: nat) -> nat {
    kernels * 3 + inputs * 1 + outputs * 21
}

/// Serialized size in bytes of a block with the given numbers of items.
pub open spec fn size_of(kernels: nat, inputs: nat, outputs: nat) -> nat {
    kernels * 106 + inputs * 34 + outputs * 708
}

/// Block weight as hundredths of a percent of the maximum weight.
pub open spec fn weight_percent_hundredths(kernels: nat, inputs: nat, outputs: nat) -> nat {
    percent_hundredths(weight_of(kernels, inputs, outputs), 40000)
}

/// Weight of a block.
pub fn block_weight(kernels: u64, inputs: u64, outputs: u64) -> (weight: u128)
    ensures
        weight == weight_of(kernels as nat, inputs as nat, outputs as nat),
{
    (kernels as u128) * KERNEL_WEIGHT + (inputs as u128) * INPUT_WEIGHT + (outputs as u128)
        * OUTPUT_WEIGHT
}

/// Weight of a block in hundredths of a percent of the maximum.
pub fn block_weight_percent(kernels: u64, inputs: u64, outputs: u64) -> (percent: u128)
    ensures
        percent == weight_percent_hundredths(kernels as nat, inputs as nat, outputs as nat),
{
    rounded_quotient(block_weight(kernels, inputs, outputs) * 100 * 100, MAX_BLOCK_WEIGHT)
}

/// Size of a block in bytes.
pub fn block_size(kernels: u64, inputs: u64, outputs: u64) -> (bytes: u128)
    ensures
        bytes == size_of(kernels as nat, inputs as nat, outputs as nat),
{
    (kernels as u128) * KERNEL_SIZE + (inputs as u128) * INPUT_SIZE + (outputs as u128)
        * OUTPUT_SIZE
}

/// A count of `unit`-sized parts in hundredths: `amount / unit` with two
/// decimals.
pub open spec fn hundredths_of(amount: nat, unit: nat) -> nat {
    round_half_up(amount * 100, unit)
}

/// `amount / unit` in hundredths, rounded half up.
fn in_hundredths(amount: u64, unit: u64) -> (parts: u128)
    requires
        unit > 0,
    ensures
        parts == hundredths_of(amount as nat, unit as nat),
{
    rounded_quotient((amount as u128) * 100, unit as u128)
}

/// Bytes on disk in hundredths of a gigabyte (10^9 bytes).
pub open spec fn gigabyte_hundredths(bytes: nat) -> nat {
    hundredths_of(bytes, 1000000000)
}

/// Disk usage in hundredths of a gigabyte.
pub fn disk_gigabytes(bytes: u64) -> (parts: u128)
    ensures
        parts == gigabyte_hundredths(bytes as nat),
{
    in_hundredths(bytes, GIGABYTE)
}

/// Fee units in hundredths of a coin.
pub open spec fn coin_hundredths(units: nat) -> nat {
    hundredths_of(units, 1000000000)
}

/// A fee total in hundredths of a coin.
pub fn fee_coins(units: u64) -> (parts: u128)
    ensures
        parts == coin_hundredths(units as nat),
{
    in_hundredths(units, COIN_UNITS)
}

} // verus!
