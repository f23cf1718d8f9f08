use grin_explorer::data::{Block, Dashboard};
use grin_explorer::display::{
    block_list_index, search, count_label, emission_btc, emission_usd,
    emission_usd_minute, fee_label, grouped_label, hashrate_label, hundredths_label, is_synced,
    kernels_label, list_page, owner_method_allowed, reward_tier, satoshi_label,
    soft_supply_label, thousandths_label, unspent_outputs_label, RewardTier, SearchTarget, DAY,
    HOUR, MINUTE, MONTH, WEEK, YEAR,
};

#[test]
fn the_rate_is_shown_with_its_unit() {
    assert_eq!(hashrate_label(1000000), "42.72 G/s");
    assert_eq!(hashrate_label(23405714), "1000.00 G/s");
    assert_eq!(hashrate_label(23405715), "1.00 kG/s");
    assert_eq!(hashrate_label(50000000), "2.14 kG/s");
    assert_eq!(hashrate_label(0), "0.00 G/s");
}

#[test]
fn unknown_values_are_shown_empty() {
    assert_eq!(hundredths_label(None), "");
    assert_eq!(thousandths_label(None), "");
    assert_eq!(count_label(None), "");
    assert_eq!(grouped_label(None), "");
    assert_eq!(fee_label(None), "");
    assert_eq!(unspent_outputs_label(&Dashboard::new()), "");
    assert_eq!(kernels_label(&Dashboard::new()), "");
}

#[test]
fn known_values_are_shown_with_their_decimals() {
    assert_eq!(hundredths_label(Some(1877)), "18.77");
    assert_eq!(thousandths_label(Some(23)), "0.023");
    assert_eq!(count_label(Some(1441)), "1441");
    assert_eq!(grouped_label(Some(168000060)), "168,000,060");
    assert_eq!(fee_label(Some(7560000000)), "7.56");
    assert_eq!(fee_label(Some(0)), "0.00");
}

#[test]
fn stocks_are_shown_with_the_room_they_take() {
    let mut dashboard = Dashboard::new();
    dashboard.utxo_count = Some(140000);
    dashboard.kernel_mmr_size = Some(9000001);
    assert_eq!(unspent_outputs_label(&dashboard), "140,000 (99.12 MB)");
    assert_eq!(kernels_label(&dashboard), "4,500,000 (477.00 MB)");
    dashboard.utxo_count = Some(2000000);
    assert_eq!(unspent_outputs_label(&dashboard), "2,000,000 (1.42 GB)");
    dashboard.utxo_count = Some(0);
    assert_eq!(unspent_outputs_label(&dashboard), "0 (0.00 MB)");
    dashboard.utxo_count = Some(u64::MAX);
    assert_eq!(
        unspent_outputs_label(&dashboard),
        "18,446,744,073,709,551,615 (13060294804186.36 GB)"
    );
}

#[test]
fn the_reward_ratio_has_four_tiers() {
    let mut dashboard = Dashboard::new();
    assert_eq!(reward_tier(&dashboard), None);
    for (ratio, tier) in [
        (0, RewardTier::Loss),
        (100, RewardTier::Loss),
        (101, RewardTier::Gain),
        (199, RewardTier::Gain),
        (200, RewardTier::Double),
        (299, RewardTier::Double),
        (300, RewardTier::Triple),
        (722, RewardTier::Triple),
    ] {
        dashboard.reward_ratio = Some(ratio);
        assert_eq!(reward_tier(&dashboard), Some(tier));
    }
}

#[test]
fn the_soft_supply_is_shown_in_millions() {
    let mut dashboard = Dashboard::new();
    assert_eq!(soft_supply_label(&dashboard), "3150M");
    dashboard.supply = Some(168000060);
    assert_eq!(soft_supply_label(&dashboard), "3150M");
    dashboard.soft_supply = Some(533);
    assert_eq!(soft_supply_label(&dashboard), "5.33 % (168M/3150M)");
    dashboard.supply = Some(99999999);
    assert_eq!(soft_supply_label(&dashboard), "3150M");
    dashboard.supply = Some(1000000000);
    assert_eq!(soft_supply_label(&dashboard), "3150M");
    dashboard.supply = Some(999999999);
    assert_eq!(soft_supply_label(&dashboard), "5.33 % (999M/3150M)");
}

#[test]
fn a_small_price_is_shown_in_satoshi() {
    assert_eq!(satoshi_label(45), "45 sats");
    assert_eq!(satoshi_label(0), " sats");
    assert_eq!(satoshi_label(99999999), "99999999 sats");
    assert_eq!(satoshi_label(100000000), "1.00000000 sats");
    assert_eq!(satoshi_label(250000001), "2.50000001 sats");
}

#[test]
fn emission_is_the_price_times_the_seconds() {
    assert_eq!(emission_usd_minute(23), 138);
    assert_eq!(emission_usd_minute(0), 0);
    assert_eq!(emission_usd(23, HOUR), 82);
    assert_eq!(emission_usd(23, DAY), 1987);
    assert_eq!(emission_usd(23, WEEK), 13910);
    assert_eq!(emission_usd(23, MONTH), 59616);
    assert_eq!(emission_usd(23, YEAR), 725824);
    assert_eq!(emission_btc(45, MINUTE), 2700);
    assert_eq!(emission_btc(45, YEAR), 1420092000);
    assert_eq!(emission_usd(u64::MAX, u64::MAX), (u64::MAX as u128) * (u64::MAX as u128) / 1000);
}

#[test]
fn the_list_pages_back_above_ten() {
    let mut dashboard = Dashboard::new();
    assert_eq!(block_list_index(&dashboard), None);
    dashboard.height = Some(10);
    assert_eq!(block_list_index(&dashboard), None);
    dashboard.height = Some(11);
    assert_eq!(block_list_index(&dashboard), Some(1));
    dashboard.height = Some(2800000);
    assert_eq!(block_list_index(&dashboard), Some(2799990));
}

#[test]
fn a_page_from_the_past_is_headed_by_its_first_block() {
    let mut first = Block::new();
    assert_eq!(list_page(&Vec::new(), 500), None);
    assert_eq!(list_page(&vec![first.clone()], 500), None);
    first.height = Some(25);
    assert_eq!(list_page(&vec![first.clone(), Block::new()], 500), Some(25));
    first.height = Some(500);
    assert_eq!(list_page(&vec![first.clone()], 500), None);
    first.height = Some(499);
    assert_eq!(list_page(&vec![first], 500), Some(499));
}

#[test]
fn a_query_is_sorted_by_what_it_asks_for() {
    assert_eq!(search("1441"), SearchTarget::Height);
    assert_eq!(search("0"), SearchTarget::Height);
    assert_eq!(search(&"7".repeat(64)), SearchTarget::Height);
    assert_eq!(search(&"a1".repeat(32)), SearchTarget::Hash);
    assert_eq!(search(&"0f".repeat(33)), SearchTarget::Commitment);
    assert_eq!(search(""), SearchTarget::Nothing);
    assert_eq!(search("abc"), SearchTarget::Nothing);
    assert_eq!(search(&"a1".repeat(31)), SearchTarget::Nothing);
    assert_eq!(search(&"A1".repeat(32)), SearchTarget::Nothing);
    assert_eq!(search(&"g1".repeat(32)), SearchTarget::Nothing);
    assert_eq!(search("12 34"), SearchTarget::Nothing);
}

#[test]
fn the_public_may_read_three_owner_methods() {
    assert!(owner_method_allowed("get_status"));
    assert!(owner_method_allowed("get_peers"));
    assert!(owner_method_allowed("get_connected_peers"));
    assert!(!owner_method_allowed("ban_peer"));
    assert!(!owner_method_allowed(""));
    assert!(!owner_method_allowed("get_status "));
}

#[test]
fn a_node_in_sync_says_no_sync() {
    let mut dashboard = Dashboard::new();
    assert!(!is_synced(&dashboard));
    dashboard.sync = String::from("no_sync");
    assert!(is_synced(&dashboard));
    dashboard.sync = String::from("header_sync");
    assert!(!is_synced(&dashboard));
}
