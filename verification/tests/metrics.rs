use grin_explorer::display::{hundredths_label, size_label};
use grin_explorer::metrics::{
    block_size, block_weight, block_weight_percent, breakeven_cost, coin_supply, disk_gigabytes,
    fee_coins, graph_rate, inflation_rate, kilo_graph_rate, market_cap_btc, market_cap_usd,
    network_difficulty,
    production_cost, reward_ratio, rounded_quotient, shown_in_thousands, soft_supply_rate,
};
use grin_explorer::text::format_fixed;

#[test]
fn weight_of_small_block_rounds_up() {
    assert_eq!(block_weight(2, 3, 1), 30);
    assert_eq!(block_weight_percent(2, 3, 1), 8);
    assert_eq!(format_fixed(block_weight_percent(2, 3, 1), 2), "0.08");
}

#[test]
fn weight_of_full_block_is_hundred_percent() {
    assert_eq!(block_weight_percent(0, 40000, 0), 10000);
    assert_eq!(format_fixed(block_weight_percent(0, 40000, 0), 2), "100.00");
}

#[test]
fn size_of_small_block() {
    assert_eq!(block_size(2, 3, 1), 2 * 106 + 3 * 34 + 708);
    assert_eq!(block_size(2, 3, 1), 1022);
    assert_eq!(size_label(block_size(2, 3, 1)), "1.02 KB");
}

#[test]
fn size_units_switch_above_their_thousand() {
    assert_eq!(size_label(0), "0 B");
    assert_eq!(size_label(1000), "1000 B");
    assert_eq!(size_label(1001), "1.00 KB");
    assert_eq!(size_label(1005), "1.01 KB");
    assert_eq!(size_label(1000000), "1000.00 KB");
    assert_eq!(size_label(1000001), "1.00 MB");
    assert_eq!(size_label(2345678), "2.35 MB");
}

#[test]
fn supply_and_inflation_at_height_100() {
    assert_eq!(coin_supply(100), 6060);
    assert_eq!(inflation_rate(100), 52039604);
    assert_eq!(hundredths_label(Some(inflation_rate(100))), "520396.04");
}

#[test]
fn supply_at_genesis_and_at_the_largest_height() {
    assert_eq!(coin_supply(0), 60);
    assert_eq!(coin_supply(u64::MAX), (u64::MAX as u128 + 1) * 60);
}

#[test]
fn market_figures_at_a_real_height() {
    let height = 2800000;
    assert_eq!(coin_supply(height), 168000060);
    assert_eq!(inflation_rate(height), 1877);
    assert_eq!(soft_supply_rate(height), 533);
    assert_eq!(market_cap_usd(height, 23), 3864001);
    assert_eq!(market_cap_btc(height, 45), 75);
}

#[test]
fn market_cap_does_not_overflow() {
    let supply = (u64::MAX as u128 + 1) * 60;
    assert_eq!(
        market_cap_usd(u64::MAX, u64::MAX),
        supply / 1000 * (u64::MAX as u128) + (supply % 1000) * (u64::MAX as u128) / 1000
    );
    assert_eq!(market_cap_btc(0, 1), 0);
    assert_eq!(market_cap_btc(0, 100000000), 60);
    assert_eq!(inflation_rate(u64::MAX), 0);
    assert_eq!(inflation_rate(0), 5256000000);
}

#[test]
fn difficulty_is_the_average_over_the_window() {
    assert_eq!(network_difficulty(1440000 + 7, 7), Some(1000));
    assert_eq!(network_difficulty(1439, 0), Some(0));
    assert_eq!(network_difficulty(5, 5), Some(0));
    assert_eq!(network_difficulty(5, 6), None);
}

#[test]
fn graph_rate_follows_the_difficulty() {
    assert_eq!(graph_rate(1000000), 4272);
    assert_eq!(kilo_graph_rate(1000000), 4);
    assert_eq!(graph_rate(50000000), 213623);
    assert_eq!(kilo_graph_rate(50000000), 214);
    assert_eq!(graph_rate(0), 0);
}

#[test]
fn rate_is_shown_in_thousands_above_1000() {
    assert!(!shown_in_thousands(23405714));
    assert!(shown_in_thousands(23405715));
    assert!(!shown_in_thousands(0));
}

#[test]
fn mining_economics_of_the_reference_miner() {
    assert_eq!(production_cost(50000000), 4);
    assert_eq!(reward_ratio(30, 50000000), Some(722));
    assert_eq!(breakeven_cost(30, 50000000), Some(51));
    assert_eq!(reward_ratio(30, 0), None);
    assert_eq!(breakeven_cost(30, 0), None);
    assert_eq!(production_cost(0), 0);
    assert_eq!(reward_ratio(0, 1), Some(0));
}

#[test]
fn disk_usage_in_gigabytes() {
    assert_eq!(disk_gigabytes(5432100000), 543);
    assert_eq!(hundredths_label(Some(disk_gigabytes(5432100000))), "5.43");
    assert_eq!(disk_gigabytes(0), 0);
}

#[test]
fn fees_in_coins() {
    assert_eq!(fee_coins(123456789), 12);
    assert_eq!(fee_coins(5000000), 1);
    assert_eq!(fee_coins(4999999), 0);
}

#[test]
fn rounding_sends_a_half_up() {
    assert_eq!(rounded_quotient(5, 10), 1);
    assert_eq!(rounded_quotient(4, 10), 0);
    assert_eq!(rounded_quotient(15, 10), 2);
    assert_eq!(rounded_quotient(7, 2), 4);
    assert_eq!(rounded_quotient(u128::MAX, 1), u128::MAX);
    assert_eq!(rounded_quotient(u128::MAX, 2), u128::MAX / 2 + 1);
    assert_eq!(rounded_quotient(0, 7), 0);
}
