//! What the pages show of the state: numbers turned into the texts, the
//! units and the choices that depend on them.

use vstd::prelude::*;
use vstd::string::*;
use crate::data::{Block, Dashboard};
use crate::grouping::{group_thousands, grouped};
use crate::metrics::{
    graph_rate, graph_rate_hundredths, kilo_graph_rate, kilo_graph_rate_hundredths,
    rate_in_thousands, round_half_up, rounded_quotient, shown_in_thousands, KERNEL_SIZE,
    OUTPUT_SIZE,
};
use crate::statistics::{last_days, rows_of, DayRow, Statistics};
use crate::text::{
    all_digits, decimal, digit_value, fixed_point, format_fixed, format_number, push_decimal,
    push_fixed, same_text,
};

verus! {

/// A size in bytes as shown for a block: in bytes up to 1000, in
/// kilobytes up to 1000000, in megabytes above, the larger units with
/// two decimals.
pub open spec fn size_text(bytes: nat) -> Seq<char> {
    if bytes > 1000000 {
        fixed_point(round_half_up(bytes, 10000), 2) + " MB"@
    } else if bytes > 1000 {
        fixed_point(round_half_up(bytes, 10), 2) + " KB"@
    } else {
        decimal(bytes) + " B"@
    }
}

/// The size of a block in words.
pub fn size_label(bytes: u128) -> (label: String)
    ensures
        label@ == size_text(bytes as nat),
{
    let mut label = String::new();
    if bytes > 1000000 {
        push_fixed(&mut label, rounded_quotient(bytes, 10000), 2);
        label.append(" MB");
    } else if bytes > 1000 {
        push_fixed(&mut label, rounded_quotient(bytes, 10), 2);
        label.append(" KB");
    } else {
        push_decimal(&mut label, bytes);
        label.append(" B");
    }
    label
}

/// The graph rate for a difficulty as shown: in graphs per second up to
/// 1000, in thousands of graphs per second above, with two decimals.
pub open spec fn hashrate_text(difficulty: u64) -> Seq<char> {
    if rate_in_thousands(difficulty as nat) {
        fixed_point(kilo_graph_rate_hundredths(difficulty as nat), 2) + " kG/s"@
    } else {
        fixed_point(graph_rate_hundredths(difficulty as nat), 2) + " G/s"@
    }
}

/// The graph rate for a difficulty in words.
pub fn hashrate_label(difficulty: u64) -> (label: String)
    ensures
        label@ == hashrate_text(difficulty),
{
    let mut label = String::new();
    if shown_in_thousands(difficulty) {
        push_fixed(&mut label, kilo_graph_rate(difficulty), 2);
        label.append(" kG/s");
    } else {
        push_fixed(&mut label, graph_rate(difficulty), 2);
        label.append(" G/s");
    }
    label
}

/// A number of items of `unit` bytes each, with the room they take: in
/// megabytes up to 1000, in gigabytes above, with two decimals.
pub open spec fn stock_text(count: nat, unit: nat) -> Seq<char> {
    grouped(count) + " ("@ + (if count * unit > 1000000000 {
        fixed_point(round_half_up(count * unit, 10000000), 2) + " GB"@
    } else {
        fixed_point(round_half_up(count * unit, 10000), 2) + " MB"@
    }) + ")"@
}

/// A number of items and the room they take, in words.
fn stock_label(count: u64, unit: u128) -> (label: String)
    requires
        unit <= 0xffff_ffff,
    ensures
        label@ == stock_text(count as nat, unit as nat),
{
    assert((count as u128) * unit <= 0xffff_ffff_ffff_ffff * 0xffff_ffff) by (nonlinear_arith)
        requires
            count <= 0xffff_ffff_ffff_ffff,
            unit <= 0xffff_ffff,
    ;
    let bytes: u128 = (count as u128) * unit;
    let mut label = group_thousands(count as u128);
    label.append(" (");
    if bytes > 1000000000 {
        push_fixed(&mut label, rounded_quotient(bytes, 10000000), 2);
        label.append(" GB");
    } else {
        push_fixed(&mut label, rounded_quotient(bytes, 10000), 2);
        label.append(" MB");
    }
    label.append(")");
    label
}

/// The unspent outputs with the room they take; empty while unknown.
pub fn unspent_outputs_label(dashboard: &Dashboard) -> (label: String)
    ensures
        label@ == match dashboard.utxo_count {
            Some(count) => stock_text(count as nat, 708),
            None => Seq::empty(),
        },
{
    match dashboard.utxo_count {
        Some(count) => stock_label(count, OUTPUT_SIZE),
        None => String::new(),
    }
}

/// The kernels, half the size of the kernel MMR, with the room they
/// take; empty while unknown.
pub fn kernels_label(dashboard: &Dashboard) -> (label: String)
    ensures
        label@ == match dashboard.kernel_mmr_size {
            Some(size) => stock_text((size / 2) as nat, 106),
            None => Seq::empty(),
        },
{
    match dashboard.kernel_mmr_size {
        Some(size) => stock_label(size / 2, KERNEL_SIZE),
        None => String::new(),
    }
}

/// How mining pays at a reward ratio.
#[derive(Debug, Clone, Copy, PartialEq, Eq, Structural)]
pub enum RewardTier {
    /// Up to 1: a coin costs what it sells for, or more.
    Loss,
    /// Above 1 and below 2.
    Gain,
    /// From 2 and below 3.
    Double,
    /// From 3.
    Triple,
}

/// The tier of a reward ratio in hundredths.
pub open spec fn tier_of(ratio: u128) -> RewardTier {
    if ratio <= 100 {
        RewardTier::Loss
    } else if ratio < 200 {
        RewardTier::Gain
    } else if ratio < 300 {
        RewardTier::Double
    } else {
        RewardTier::Triple
    }
}

/// The tier of the dashboard's reward ratio; `None` while it is unknown.
pub fn reward_tier(dashboard: &Dashboard) -> (tier: Option<RewardTier>)
    ensures
        tier == match dashboard.reward_ratio {
            Some(ratio) => Some(tier_of(ratio)),
            None => None,
        },
{
    match dashboard.reward_ratio {
        Some(ratio) => Some(
            if ratio <= 100 {
                RewardTier::Loss
            } else if ratio < 200 {
                RewardTier::Gain
            } else if ratio < 300 {
                RewardTier::Double
            } else {
                RewardTier::Triple
            },
        ),
        None => None,
    }
}

/// The soft supply as shown: for a supply of nine digits the percentage
/// with the supply in millions against the cap of 3150 millions, and the
/// cap alone otherwise.
pub open spec fn soft_supply_text(supply: Option<u128>, soft_supply: Option<u128>) -> Seq<char> {
    match (supply, soft_supply) {
        (Some(coins), Some(rate)) => if 100000000 <= coins < 1000000000 {
            fixed_point(rate as nat, 2) + " % ("@ + decimal((coins / 1000000) as nat)
                + "M/3150M)"@
        } else {
            "3150M"@
        },
        _ => "3150M"@,
    }
}

/// The soft supply in words.
pub fn soft_supply_label(dashboard: &Dashboard) -> (label: String)
    ensures
        label@ == soft_supply_text(dashboard.supply, dashboard.soft_supply),
{
    match (dashboard.supply, dashboard.soft_supply) {
        (Some(coins), Some(rate)) => {
            if 100000000 <= coins && coins < 1000000000 {
                let mut label = String::new();
                push_fixed(&mut label, rate, 2);
                label.append(" % (");
                push_decimal(&mut label, coins / 1000000);
                label.append("M/3150M)");
                label
            } else {
                String::from_str("3150M")
            }
        },
        _ => String::from_str("3150M"),
    }
}

/// A price in bitcoin as shown: below one bitcoin the hundred-millionths
/// as a whole number, nothing for a price of zero, and from one bitcoin
/// on the price with eight decimals.
pub open spec fn satoshi_text(price: u64) -> Seq<char> {
    (if price == 0 {
        Seq::<char>::empty()
    } else if price < 100000000 {
        decimal(price as nat)
    } else {
        fixed_point(price as nat, 8)
    }) + " sats"@
}

/// The price in bitcoin in words.
pub fn satoshi_label(price: u64) -> (label: String)
    ensures
        label@ == satoshi_text(price),
{
    let mut label = String::new();
    if price == 0 {
    } else if price < 100000000 {
        push_decimal(&mut label, price as u128);
    } else {
        push_fixed(&mut label, price as u128, 8);
    }
    label.append(" sats");
    label
}

/// Seconds in the spans of the emission table; one coin is created in
/// each second.
pub const MINUTE: u64 = 60;

pub const HOUR: u64 = 3600;

pub const DAY: u64 = 86400;

pub const WEEK: u64 = 604800;

pub const MONTH: u64 = 2592000;

pub const YEAR: u64 = 31557600;

/// Whole dollars created in `seconds`, at a price in thousandths of a
/// dollar.
pub open spec fn emission_dollars(price: u64, seconds: u64) -> nat {
    (price * seconds / 1000) as nat
}

/// Hundredths of a dollar created in one minute.
pub open spec fn emission_minute_hundredths(price: u64) -> nat {
    round_half_up((price * 60) as nat, 10)
}

/// Hundred-millionths of a bitcoin created in `seconds`, at a price in
/// hundred-millionths.
pub open spec fn emission_satoshi(price: u64, seconds: u64) -> nat {
    (price * seconds) as nat
}

/// Whole dollars created in a span of `seconds`.
pub fn emission_usd(price: u64, seconds: u64) -> (dollars: u128)
    ensures
        dollars == emission_dollars(price, seconds),
{
    assert((price as u128) * (seconds as u128) <= 0xffff_ffff_ffff_ffff * 0xffff_ffff_ffff_ffff)
        by (nonlinear_arith)
        requires
            price <= 0xffff_ffff_ffff_ffff,
            seconds <= 0xffff_ffff_ffff_ffff,
    ;
    (price as u128) * (seconds as u128) / 1000
}

/// Hundredths of a dollar created in a minute.
pub fn emission_usd_minute(price: u64) -> (hundredths: u128)
    ensures
        hundredths == emission_minute_hundredths(price),
{
    rounded_quotient((price as u128) * 60, 10)
}

/// Hundred-millionths of a bitcoin created in a span of `seconds`.
pub fn emission_btc(price: u64, seconds: u64) -> (satoshi: u128)
    ensures
        satoshi == emission_satoshi(price, seconds),
{
    assert((price as u128) * (seconds as u128) <= 0xffff_ffff_ffff_ffff * 0xffff_ffff_ffff_ffff)
        by (nonlinear_arith)
        requires
            price <= 0xffff_ffff_ffff_ffff,
            seconds <= 0xffff_ffff_ffff_ffff,
    ;
    (price as u128) * (seconds as u128)
}

/// Days in the three spans of the charts.
pub const CHART_MONTH: usize = 30;

pub const CHART_HALF_YEAR: usize = 180;

pub const CHART_YEAR: usize = 365;

/// The rows of the last `span` days of the series, oldest first.
pub fn chart_window(statistics: &Statistics, span: usize) -> (rows: Vec<DayRow>)
    ensures
        rows_of(rows@) == last_days(statistics@.days, span as nat),
{
    statistics.last_rows(span)
}

/// The link that pages the block list back by ten blocks: to the height
/// ten below the tip, where the tip is above ten.
pub fn block_list_index(dashboard: &Dashboard) -> (index: Option<u64>)
    ensures
        index == match dashboard.height {
            Some(height) => if height > 10 {
                Some((height - 10) as u64)
            } else {
                None
            },
            None => None,
        },
{
    match dashboard.height {
        Some(height) => {
            if height > 10 {
                Some(height - 10)
            } else {
                None
            }
        },
        None => None,
    }
}

/// The height that heads a page of the block list, where the page is one
/// from the past: the height of its first block, unless there is none or
/// it reaches the tip.
pub fn list_page(blocks: &Vec<Block>, latest_height: u64) -> (index: Option<u64>)
    ensures
        index == if blocks@.len() > 0 {
            match blocks@[0].height {
                Some(first) => if first >= latest_height {
                    None
                } else {
                    Some(first)
                },
                None => None,
            }
        } else {
            None
        },
{
    if blocks.len() > 0 {
        match blocks[0].height {
            Some(first) => {
                if first >= latest_height {
                    None
                } else {
                    Some(first)
                }
            },
            None => None,
        }
    } else {
        None
    }
}

/// What a search query asks for.
#[derive(Debug, Clone, Copy, PartialEq, Eq, Structural)]
pub enum SearchTarget {
    /// A block by its height.
    Height,
    /// A block by the hash of its header.
    Hash,
    /// A kernel by its excess, or else an unspent output by its
    /// commitment.
    Commitment,
    /// Nothing that the explorer can look up.
    Nothing,
}

/// Whether `c` is a digit or a letter from `a` to `f`.
pub open spec fn is_hex(c: char) -> bool {
    digit_value(c) is Some || c == 'a' || c == 'b' || c == 'c' || c == 'd' || c == 'e' || c == 'f'
}

/// Whether every character of `s` is a lower-case hexadecimal digit.
pub open spec fn all_hex(s: Seq<char>) -> bool {
    forall|i: int| 0 <= i < s.len() ==> is_hex(#[trigger] s[i])
}

/// What a query, trimmed and in lower case, asks for: digits alone are a
/// height, 64 hexadecimal digits a hash, 66 a commitment.
pub open spec fn target_of(query: Seq<char>) -> SearchTarget {
    if query.len() == 0 || !all_hex(query) {
        SearchTarget::Nothing
    } else if all_digits(query) {
        SearchTarget::Height
    } else if query.len() == 64 {
        SearchTarget::Hash
    } else if query.len() == 66 {
        SearchTarget::Commitment
    } else {
        SearchTarget::Nothing
    }
}

/// Whether `c` is a decimal digit.
fn is_digit(c: char) -> (digit: bool)
    ensures
        digit == digit_value(c) is Some,
{
    c == '0' || c == '1' || c == '2' || c == '3' || c == '4' || c == '5' || c == '6' || c == '7'
        || c == '8' || c == '9'
}

/// Sorts a search query, trimmed and in lower case, by what it asks for.
pub fn search(query: &str) -> (target: SearchTarget)
    ensures
        target == target_of(query@),
{
    let len = query.unicode_len();
    if len == 0 {
        return SearchTarget::Nothing;
    }
    let mut digits = true;
    let mut i: usize = 0;
    while i < len
        invariant
            i <= len,
            len == query@.len(),
            forall|k: int| 0 <= k < i ==> is_hex(#[trigger] query@[k]),
            digits == forall|k: int| 0 <= k < i ==> digit_value(#[trigger] query@[k]) is Some,
        decreases len - i,
    {
        let c = query.get_char(i);
        if is_digit(c) {
        } else if c == 'a' || c == 'b' || c == 'c' || c == 'd' || c == 'e' || c == 'f' {
            digits = false;
        } else {
            return SearchTarget::Nothing;
        }
        i = i + 1;
    }
    if digits {
        SearchTarget::Height
    } else if len == 64 {
        SearchTarget::Hash
    } else if len == 66 {
        SearchTarget::Commitment
    } else {
        SearchTarget::Nothing
    }
}

/// Whether a method of the owner API is passed on to the public: the
/// three that only read.
pub open spec fn owner_method_open(method: Seq<char>) -> bool {
    method == "get_connected_peers"@ || method == "get_peers"@ || method == "get_status"@
}

/// Whether the public may call `method` of the owner API.
pub fn owner_method_allowed(method: &str) -> (allowed: bool)
    ensures
        allowed == owner_method_open(method@),
{
    same_text(method, "get_connected_peers") || same_text(method, "get_peers") || same_text(
        method,
        "get_status",
    )
}

/// Whether the node reports that it is in sync.
pub fn is_synced(dashboard: &Dashboard) -> (synced: bool)
    ensures
        synced == (dashboard.sync@ == "no_sync"@),
{
    same_text(dashboard.sync.as_str(), "no_sync")
}

/// The text of a value in hundredths; empty while it is unknown.
pub open spec fn hundredths_text(value: Option<u128>) -> Seq<char> {
    match value {
        Some(v) => fixed_point(v as nat, 2),
        None => Seq::empty(),
    }
}

/// The text of a value in thousandths; empty while it is unknown.
pub open spec fn thousandths_text(value: Option<u128>) -> Seq<char> {
    match value {
        Some(v) => fixed_point(v as nat, 3),
        None => Seq::empty(),
    }
}

/// The text of a count; empty while it is unknown.
pub open spec fn count_text(value: Option<u64>) -> Seq<char> {
    match value {
        Some(v) => decimal(v as nat),
        None => Seq::empty(),
    }
}

/// The text of an amount with commas between the thousands; empty while
/// it is unknown.
pub open spec fn grouped_text(value: Option<u128>) -> Seq<char> {
    match value {
        Some(v) => grouped(v as nat),
        None => Seq::empty(),
    }
}

/// A value in hundredths, written with two decimals.
pub fn hundredths_label(value: Option<u128>) -> (label: String)
    ensures
        label@ == hundredths_text(value),
{
    match value {
        Some(v) => format_fixed(v, 2),
        None => String::new(),
    }
}

/// A value in thousandths, written with three decimals.
pub fn thousandths_label(value: Option<u128>) -> (label: String)
    ensures
        label@ == thousandths_text(value),
{
    match value {
        Some(v) => format_fixed(v, 3),
        None => String::new(),
    }
}

/// A count in decimal notation.
pub fn count_label(value: Option<u64>) -> (label: String)
    ensures
        label@ == count_text(value),
{
    match value {
        Some(v) => format_number(v as u128),
        None => String::new(),
    }
}

/// An amount with commas between the thousands.
pub fn grouped_label(value: Option<u128>) -> (label: String)
    ensures
        label@ == grouped_text(value),
{
    match value {
        Some(v) => group_thousands(v),
        None => String::new(),
    }
}

/// A fee total in coins with two decimals; empty while it is unknown.
pub open spec fn fee_text(units: Option<u64>) -> Seq<char> {
    match units {
        Some(u) => fixed_point(crate::metrics::coin_hundredths(u as nat), 2),
        None => Seq::empty(),
    }
}

/// A fee total in coins, written with two decimals.
pub fn fee_label(units: Option<u64>) -> (label: String)
    ensures
        label@ == fee_text(units),
{
    match units {
        Some(u) => format_fixed(crate::metrics::fee_coins(u), 2),
        None => String::new(),
    }
}

} // verus!
