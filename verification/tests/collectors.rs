use grin_explorer::data::{Dashboard, KernelEntry, Transactions};
use grin_explorer::requests::{
    chain_data_path, get_current_height, get_disk_usage, get_market, get_mempool,
    get_mining_stats, get_status, get_txn_stats, get_unspent_outputs, mining_window, runs_locally,
    summarize, txn_windows, Failure, FeedClock, Outcome, OutputWalk, Skip, WalkState,
};
use grin_explorer::rpc::{BlockReply, Fetch, MarketFeed, OutputsPage, PriceQuote, RpcError, StatusReply};

fn collectors_block(height: u64, total_difficulty: u64, kernels: Vec<KernelEntry>) -> BlockReply {
    BlockReply {
        hash: String::from("00ab"),
        height,
        timestamp: String::from("2024-01-01T00:00:00+00:00"),
        version: 5,
        total_difficulty,
        kernel_mmr_size: 2 * height,
        kernels,
        inputs: Vec::new(),
        outputs: Vec::new(),
        raw: String::new(),
    }
}

fn collectors_kernel(features: &str, fee: u64) -> KernelEntry {
    KernelEntry { excess: String::from("08"), features: String::from(features), fee }
}

fn collectors_status(height: u64, chain: Option<&str>) -> StatusReply {
    StatusReply {
        height,
        sync_status: String::from("no_sync"),
        user_agent: String::from("MW/Grin 5.3.0"),
        protocol_version: 1000,
        chain: chain.map(String::from),
    }
}

fn collectors_filled() -> Dashboard {
    let mut dashboard = Dashboard::new();
    dashboard.height = Some(2000);
    dashboard.sync = String::from("no_sync");
    dashboard.node_ver = String::from("MW/Grin 5.2.0");
    dashboard.chain = String::from("main");
    dashboard.kernel_mmr_size = Some(4000);
    dashboard.txns = Some(3);
    dashboard.stem = Some(1);
    dashboard.price_usd = Some(30);
    dashboard.difficulty = Some(77);
    dashboard.hashrate = Some(1);
    dashboard.hashrate_kgs = Some(0);
    dashboard.disk_usage = Some(543);
    dashboard.utxo_count = Some(9);
    dashboard
}

#[test]
fn a_new_dashboard_is_empty() {
    let dashboard = Dashboard::new();
    assert_eq!(dashboard.height, None);
    assert_eq!(dashboard.sync, "");
    assert_eq!(dashboard.node_ver, "");
    assert_eq!(dashboard.chain, "");
    assert_eq!(dashboard.inbound, 0);
    assert_eq!(dashboard.outbound, 0);
    assert_eq!(dashboard.supply, None);
    assert_eq!(dashboard.price_usd, None);
    assert_eq!(dashboard.difficulty, None);
    assert_eq!(dashboard.utxo_count, None);
    assert_eq!(get_current_height(&dashboard), "");
}

#[test]
fn status_writes_height_versions_and_chain() {
    let mut dashboard = Dashboard::new();
    let outcome = get_status(
        &mut dashboard,
        &Fetch::Reply(collectors_status(1500, Some("test"))),
        &Fetch::Reply(collectors_block(1500, 1, Vec::new())),
    );
    assert_eq!(outcome, Outcome::Updated);
    assert_eq!(dashboard.height, Some(1500));
    assert_eq!(dashboard.sync, "no_sync");
    assert_eq!(dashboard.node_ver, "MW/Grin 5.3.0");
    assert_eq!(dashboard.proto_ver, Some(1000));
    assert_eq!(dashboard.chain, "test");
    assert_eq!(dashboard.kernel_mmr_size, Some(3000));
    assert_eq!(get_current_height(&dashboard), "1500");
}

#[test]
fn status_takes_main_for_a_node_that_names_no_chain() {
    let mut dashboard = Dashboard::new();
    let outcome =
        get_status(&mut dashboard, &Fetch::Reply(collectors_status(7, None)), &Fetch::Empty);
    assert_eq!(outcome, Outcome::Updated);
    assert_eq!(dashboard.chain, "main");
    assert_eq!(dashboard.kernel_mmr_size, None);
}

#[test]
fn status_keeps_the_kernel_mmr_size_when_the_tip_is_empty() {
    let mut dashboard = collectors_filled();
    let outcome =
        get_status(&mut dashboard, &Fetch::Reply(collectors_status(2001, None)), &Fetch::Empty);
    assert_eq!(outcome, Outcome::Updated);
    assert_eq!(dashboard.height, Some(2001));
    assert_eq!(dashboard.kernel_mmr_size, Some(4000));
}

#[test]
fn a_failed_status_leaves_the_dashboard() {
    let before = collectors_filled();
    let mut dashboard = before.clone();
    let outcome =
        get_status(&mut dashboard, &Fetch::Failed(RpcError::Unreachable), &Fetch::Empty);
    assert_eq!(outcome, Outcome::Failed(Failure::Call(RpcError::Unreachable)));
    assert_eq!(dashboard, before);
    let outcome = get_status(
        &mut dashboard,
        &Fetch::Reply(collectors_status(2001, None)),
        &Fetch::Failed(RpcError::Malformed),
    );
    assert_eq!(outcome, Outcome::Failed(Failure::Call(RpcError::Malformed)));
    assert_eq!(dashboard, before);
    let outcome = get_status(&mut dashboard, &Fetch::Empty, &Fetch::Empty);
    assert_eq!(outcome, Outcome::Skipped(Skip::NothingReported));
    assert_eq!(dashboard, before);
}

#[test]
fn mempool_copies_both_sizes() {
    let mut dashboard = Dashboard::new();
    assert_eq!(get_mempool(&mut dashboard, &Fetch::Reply(12), &Fetch::Reply(2)), Outcome::Updated);
    assert_eq!(dashboard.txns, Some(12));
    assert_eq!(dashboard.stem, Some(2));
}

#[test]
fn a_failed_mempool_leaves_the_dashboard() {
    let before = collectors_filled();
    let mut dashboard = before.clone();
    assert_eq!(
        get_mempool(&mut dashboard, &Fetch::Reply(12), &Fetch::Failed(RpcError::Unreachable)),
        Outcome::Failed(Failure::Call(RpcError::Unreachable))
    );
    assert_eq!(dashboard, before);
    assert_eq!(
        get_mempool(&mut dashboard, &Fetch::Failed(RpcError::Malformed), &Fetch::Reply(2)),
        Outcome::Failed(Failure::Call(RpcError::Malformed))
    );
    assert_eq!(dashboard, before);
    assert_eq!(
        get_mempool(&mut dashboard, &Fetch::Empty, &Fetch::Failed(RpcError::Malformed)),
        Outcome::Failed(Failure::Call(RpcError::Malformed))
    );
    assert_eq!(
        get_mempool(&mut dashboard, &Fetch::Empty, &Fetch::Reply(2)),
        Outcome::Skipped(Skip::NothingReported)
    );
    assert_eq!(
        get_mempool(&mut dashboard, &Fetch::Reply(2), &Fetch::Empty),
        Outcome::Skipped(Skip::NothingReported)
    );
    assert_eq!(dashboard, before);
}

#[test]
fn market_derives_supply_from_the_height() {
    let mut dashboard = Dashboard::new();
    dashboard.height = Some(100);
    assert_eq!(get_market(&mut dashboard, &MarketFeed::NotAsked), Outcome::Updated);
    assert_eq!(dashboard.supply, Some(6060));
    assert_eq!(dashboard.inflation, Some(52039604));
    assert_eq!(dashboard.soft_supply, Some(0));
    assert_eq!(dashboard.price_usd, None);
    assert_eq!(dashboard.cap_usd, None);
}

#[test]
fn market_takes_the_quote_of_the_feed() {
    let mut dashboard = Dashboard::new();
    dashboard.height = Some(2800000);
    let quote = PriceQuote { usd: 23, btc: 45, usd_24h_vol: 12345, btc_24h_vol: 678 };
    assert_eq!(get_market(&mut dashboard, &MarketFeed::Quote(quote)), Outcome::Updated);
    assert_eq!(dashboard.supply, Some(168000060));
    assert_eq!(dashboard.inflation, Some(1877));
    assert_eq!(dashboard.soft_supply, Some(533));
    assert_eq!(dashboard.price_usd, Some(23));
    assert_eq!(dashboard.price_btc, Some(45));
    assert_eq!(dashboard.volume_usd, Some(12345));
    assert_eq!(dashboard.volume_btc, Some(678));
    assert_eq!(dashboard.cap_usd, Some(3864001));
    assert_eq!(dashboard.cap_btc, Some(75));
}

#[test]
fn a_feed_in_trouble_leaves_the_price() {
    let mut dashboard = collectors_filled();
    dashboard.price_btc = Some(45);
    dashboard.cap_usd = Some(1);
    for feed in [
        MarketFeed::NotAsked,
        MarketFeed::Refused(String::from("rate limit")),
        MarketFeed::Failed(RpcError::Unreachable),
    ] {
        assert_eq!(get_market(&mut dashboard, &feed), Outcome::Updated);
        assert_eq!(dashboard.price_usd, Some(30));
        assert_eq!(dashboard.price_btc, Some(45));
        assert_eq!(dashboard.cap_usd, Some(1));
        assert_eq!(dashboard.supply, Some(2001 * 60));
    }
}

#[test]
fn market_waits_for_the_height() {
    let mut dashboard = Dashboard::new();
    let quote = PriceQuote { usd: 23, btc: 45, usd_24h_vol: 12345, btc_24h_vol: 678 };
    assert_eq!(
        get_market(&mut dashboard, &MarketFeed::Quote(quote)),
        Outcome::Skipped(Skip::HeightUnknown)
    );
    assert_eq!(dashboard, Dashboard::new());
}

#[test]
fn the_feed_is_due_in_one_cycle_of_ten() {
    let mut clock = FeedClock::new();
    let mut due = Vec::new();
    for _ in 0..21 {
        due.push(clock.tick());
    }
    for (cycle, asked) in due.iter().enumerate() {
        assert_eq!(*asked, cycle % 10 == 0);
    }
    assert_eq!(clock.calls, 21);
    let mut last = FeedClock { calls: u64::MAX };
    assert!(!last.tick());
    assert_eq!(last.calls, 0);
}

#[test]
fn disk_usage_is_written_in_gigabytes() {
    let mut dashboard = Dashboard::new();
    assert_eq!(get_disk_usage(&mut dashboard, Some(5432100000), "127.0.0.1"), Outcome::Updated);
    assert_eq!(dashboard.disk_usage, Some(543));
}

#[test]
fn a_missing_directory_fails_for_a_local_node_only() {
    let before = collectors_filled();
    let mut dashboard = before.clone();
    assert_eq!(
        get_disk_usage(&mut dashboard, None, "127.0.0.1"),
        Outcome::Failed(Failure::PathMissing)
    );
    assert_eq!(
        get_disk_usage(&mut dashboard, None, "localhost"),
        Outcome::Failed(Failure::PathMissing)
    );
    assert_eq!(
        get_disk_usage(&mut dashboard, None, "node.example.org"),
        Outcome::Skipped(Skip::NoLocalData)
    );
    assert_eq!(dashboard, before);
    assert!(runs_locally("::1"));
    assert!(!runs_locally("127.0.0.2"));
}

#[test]
fn chain_data_lie_below_the_chain() {
    assert_eq!(chain_data_path("/home/grin/.grin", "main"), "/home/grin/.grin/main/chain_data");
}

#[test]
fn mining_needs_a_chain_above_the_window() {
    let tip = Fetch::Reply(collectors_block(1440, 1440000, Vec::new()));
    let base = Fetch::Reply(collectors_block(0, 0, Vec::new()));
    for height in [0u64, 1, 720, 1439, 1440] {
        let mut before = collectors_filled();
        before.height = Some(height);
        let mut dashboard = before.clone();
        assert_eq!(mining_window(&dashboard), None);
        assert_eq!(
            get_mining_stats(&mut dashboard, &tip, &base),
            Outcome::Skipped(Skip::WindowNotReached)
        );
        assert_eq!(dashboard, before);
    }
    let mut unknown = Dashboard::new();
    assert_eq!(mining_window(&unknown), None);
    assert_eq!(
        get_mining_stats(&mut unknown, &tip, &base),
        Outcome::Skipped(Skip::HeightUnknown)
    );
    assert_eq!(unknown, Dashboard::new());
}

#[test]
fn mining_writes_difficulty_rate_and_economics() {
    let mut dashboard = Dashboard::new();
    dashboard.height = Some(1441);
    dashboard.price_usd = Some(30);
    assert_eq!(mining_window(&dashboard), Some((1441, 1)));
    let tip = Fetch::Reply(collectors_block(1441, 72000000000 + 5, Vec::new()));
    let base = Fetch::Reply(collectors_block(1, 5, Vec::new()));
    assert_eq!(get_mining_stats(&mut dashboard, &tip, &base), Outcome::Updated);
    assert_eq!(dashboard.difficulty, Some(50000000));
    assert_eq!(dashboard.hashrate, Some(213623));
    assert_eq!(dashboard.hashrate_kgs, Some(214));
    assert_eq!(dashboard.production_cost, Some(4));
    assert_eq!(dashboard.reward_ratio, Some(722));
    assert_eq!(dashboard.breakeven_cost, Some(51));
}

#[test]
fn mining_leaves_the_economics_without_a_price() {
    let mut dashboard = Dashboard::new();
    dashboard.height = Some(5000);
    dashboard.reward_ratio = Some(1);
    let tip = Fetch::Reply(collectors_block(5000, 1440000, Vec::new()));
    let base = Fetch::Reply(collectors_block(3560, 0, Vec::new()));
    assert_eq!(get_mining_stats(&mut dashboard, &tip, &base), Outcome::Updated);
    assert_eq!(dashboard.difficulty, Some(1000));
    assert_eq!(dashboard.hashrate, Some(4));
    assert_eq!(dashboard.production_cost, None);
    assert_eq!(dashboard.reward_ratio, Some(1));
    assert_eq!(dashboard.breakeven_cost, None);
}

#[test]
fn mining_at_zero_difficulty_has_a_cost_and_no_ratio() {
    let mut dashboard = Dashboard::new();
    dashboard.height = Some(5000);
    dashboard.price_usd = Some(30);
    let tip = Fetch::Reply(collectors_block(5000, 10, Vec::new()));
    let base = Fetch::Reply(collectors_block(3560, 10, Vec::new()));
    assert_eq!(get_mining_stats(&mut dashboard, &tip, &base), Outcome::Updated);
    assert_eq!(dashboard.difficulty, Some(0));
    assert_eq!(dashboard.production_cost, Some(0));
    assert_eq!(dashboard.reward_ratio, None);
    assert_eq!(dashboard.breakeven_cost, None);
}

#[test]
fn a_failed_mining_leaves_the_dashboard() {
    let before = collectors_filled();
    let mut dashboard = before.clone();
    let tip = Fetch::Reply(collectors_block(2000, 10, Vec::new()));
    let base = Fetch::Reply(collectors_block(560, 11, Vec::new()));
    assert_eq!(
        get_mining_stats(&mut dashboard, &tip, &base),
        Outcome::Failed(Failure::Difficulty)
    );
    assert_eq!(
        get_mining_stats(&mut dashboard, &tip, &Fetch::Failed(RpcError::Unreachable)),
        Outcome::Failed(Failure::Call(RpcError::Unreachable))
    );
    assert_eq!(
        get_mining_stats(&mut dashboard, &Fetch::Failed(RpcError::Malformed), &base),
        Outcome::Failed(Failure::Call(RpcError::Malformed))
    );
    assert_eq!(
        get_mining_stats(&mut dashboard, &Fetch::Empty, &base),
        Outcome::Skipped(Skip::NothingReported)
    );
    assert_eq!(
        get_mining_stats(&mut dashboard, &tip, &Fetch::Empty),
        Outcome::Skipped(Skip::NothingReported)
    );
    assert_eq!(dashboard, before);
}

#[test]
fn transactions_are_counted_without_coinbase() {
    let mut dashboard = Dashboard::new();
    dashboard.height = Some(3000);
    assert_eq!(txn_windows(&dashboard), Some(((1560, 2280), (2280, 3000))));
    let mut older = Vec::new();
    for height in 0..100u64 {
        older.push(collectors_block(
            height,
            0,
            vec![collectors_kernel("Coinbase", 0), collectors_kernel("Plain", 1000000)],
        ));
    }
    let mut newer = Vec::new();
    for height in 100..130u64 {
        newer.push(collectors_block(
            height,
            0,
            vec![
                collectors_kernel("Coinbase", 0),
                collectors_kernel("Plain", 23000000),
                collectors_kernel("HeightLocked", 500000),
            ],
        ));
    }
    let mut transactions = Transactions::new();
    let outcome = get_txn_stats(
        &dashboard,
        &mut transactions,
        &Fetch::Reply(older),
        &Fetch::Reply(newer),
    );
    assert_eq!(outcome, Outcome::Updated);
    assert_eq!(transactions.period_24h, Some(100 + 60));
    assert_eq!(transactions.fees_24h, Some(100 * 1000000 + 30 * 23500000));
    assert_eq!(transactions.period_1h, Some(30 + 60));
    assert_eq!(transactions.fees_1h, Some(30 * 1000000 + 30 * 23500000));
}

#[test]
fn transactions_go_on_with_the_answer_that_came() {
    let mut dashboard = Dashboard::new();
    dashboard.height = Some(3000);
    let newer = vec![collectors_block(1, 0, vec![collectors_kernel("Plain", 7)])];
    let mut transactions = Transactions::new();
    let outcome = get_txn_stats(
        &dashboard,
        &mut transactions,
        &Fetch::Failed(RpcError::Unreachable),
        &Fetch::Reply(newer),
    );
    assert_eq!(outcome, Outcome::Updated);
    assert_eq!(
        transactions,
        Transactions {
            period_1h: Some(1),
            period_24h: Some(1),
            fees_1h: Some(7),
            fees_24h: Some(7)
        }
    );
}

#[test]
fn transactions_are_left_when_nothing_can_be_said() {
    let before =
        Transactions { period_1h: Some(1), period_24h: Some(2), fees_1h: Some(3), fees_24h: Some(4) };
    let some = vec![collectors_block(1, 0, vec![collectors_kernel("Plain", 7)])];
    let mut transactions = before;
    let mut dashboard = Dashboard::new();
    assert_eq!(txn_windows(&dashboard), None);
    assert_eq!(
        get_txn_stats(&dashboard, &mut transactions, &Fetch::Reply(some.clone()), &Fetch::Empty),
        Outcome::Skipped(Skip::HeightUnknown)
    );
    dashboard.height = Some(1440);
    assert_eq!(txn_windows(&dashboard), None);
    assert_eq!(
        get_txn_stats(&dashboard, &mut transactions, &Fetch::Reply(some.clone()), &Fetch::Empty),
        Outcome::Skipped(Skip::WindowNotReached)
    );
    dashboard.height = Some(1441);
    assert_eq!(
        get_txn_stats(
            &dashboard,
            &mut transactions,
            &Fetch::Failed(RpcError::Unreachable),
            &Fetch::Empty
        ),
        Outcome::Skipped(Skip::NothingReported)
    );
    let huge = vec![collectors_block(
        1,
        0,
        vec![collectors_kernel("Plain", u64::MAX), collectors_kernel("Plain", 1)],
    )];
    assert_eq!(
        get_txn_stats(&dashboard, &mut transactions, &Fetch::Reply(huge), &Fetch::Empty),
        Outcome::Failed(Failure::Overflow)
    );
    assert_eq!(transactions, before);
}

#[test]
fn a_summary_of_no_blocks_is_zero() {
    assert_eq!(
        summarize(&Vec::new()),
        Some(Transactions {
            period_1h: Some(0),
            period_24h: Some(0),
            fees_1h: Some(0),
            fees_24h: Some(0)
        })
    );
}

#[test]
fn the_walk_counts_page_by_page() {
    let mut walk = OutputWalk::new();
    assert_eq!(walk.request(), Some(1));
    walk.advance(&Fetch::Reply(OutputsPage {
        highest_index: 25000,
        last_index: Some(12000),
        outputs: 10000,
    }));
    assert_eq!(walk.request(), Some(12001));
    assert_eq!(walk.count, 10000);
    walk.advance(&Fetch::Reply(OutputsPage {
        highest_index: 25000,
        last_index: Some(25000),
        outputs: 8000,
    }));
    assert_eq!(walk.state, WalkState::Done);
    assert_eq!(walk.request(), None);
    assert_eq!(walk.count, 18000);
    let mut dashboard = Dashboard::new();
    assert_eq!(get_unspent_outputs(&mut dashboard, &walk), Outcome::Updated);
    assert_eq!(dashboard.utxo_count, Some(18000));
    walk.advance(&Fetch::Failed(RpcError::Unreachable));
    assert_eq!(walk.state, WalkState::Done);
}

#[test]
fn the_walk_ends_on_a_page_without_outputs() {
    let mut walk = OutputWalk::new();
    walk.advance(&Fetch::Reply(OutputsPage {
        highest_index: 25000,
        last_index: Some(12000),
        outputs: 10000,
    }));
    walk.advance(&Fetch::Reply(OutputsPage { highest_index: 25000, last_index: None, outputs: 0 }));
    assert_eq!(walk, OutputWalk { next: 12001, count: 10000, state: WalkState::Done });
    let mut empty = OutputWalk::new();
    empty.advance(&Fetch::Empty);
    assert_eq!(empty, OutputWalk { next: 1, count: 0, state: WalkState::Done });
}

#[test]
fn the_walk_ends_on_a_page_that_leads_nowhere() {
    let mut walk = OutputWalk { next: 500, count: 10, state: WalkState::Running };
    walk.advance(&Fetch::Reply(OutputsPage {
        highest_index: 25000,
        last_index: Some(499),
        outputs: 3,
    }));
    assert_eq!(walk, OutputWalk { next: 500, count: 13, state: WalkState::Done });
}

#[test]
fn a_failed_walk_writes_no_count() {
    let before = collectors_filled();
    let mut dashboard = before.clone();
    let mut walk = OutputWalk::new();
    assert_eq!(
        get_unspent_outputs(&mut dashboard, &walk),
        Outcome::Skipped(Skip::NothingReported)
    );
    walk.advance(&Fetch::Failed(RpcError::Malformed));
    assert_eq!(walk.state, WalkState::Failed(Failure::Call(RpcError::Malformed)));
    assert_eq!(walk.request(), None);
    assert_eq!(
        get_unspent_outputs(&mut dashboard, &walk),
        Outcome::Failed(Failure::Call(RpcError::Malformed))
    );
    let mut full = OutputWalk { next: 5, count: u64::MAX, state: WalkState::Running };
    full.advance(&Fetch::Reply(OutputsPage {
        highest_index: 25000,
        last_index: Some(10),
        outputs: 1,
    }));
    assert_eq!(full.state, WalkState::Failed(Failure::Overflow));
    assert_eq!(get_unspent_outputs(&mut dashboard, &full), Outcome::Failed(Failure::Overflow));
    assert_eq!(dashboard, before);
}
