//! The collectors: what each metric family writes into the shared state
//! from the answers of one cycle, and which calls it needs. A collector
//! that cannot do its work says why and leaves the state as it was.

use vstd::prelude::*;
use vstd::string::*;
use crate::clock::{
    block_age, block_age_text, full_time, full_time_text, now_seconds, parse_timestamp,
    timestamp_of,
};
use crate::data::{
    empty_block, kernels_of, outputs_of, texts_of, Block, BlockView, Dashboard, DashboardView,
    Kernel, KernelEntry, KernelEntryView, KernelView, Output, OutputEntry, OutputView, Transactions,
};
use crate::metrics::{
    block_size, block_weight_percent, breakeven_cost, breakeven_hundredths, capitalisation,
    coin_supply, disk_gigabytes, gigabyte_hundredths, graph_rate, graph_rate_hundredths,
    inflation_hundredths, inflation_rate, kilo_graph_rate, kilo_graph_rate_hundredths,
    market_cap_btc, market_cap_usd, network_difficulty, production_cost,
    production_cost_thousandths, reward_ratio, reward_ratio_hundredths, size_of,
    soft_supply_hundredths, soft_supply_rate, supply_at, weight_percent_hundredths,
    window_difficulty, DIFFICULTY_WINDOW,
};
use crate::peers::{counted, histogram, is_histogram};
use crate::rpc::{
    peers_of, BlockReply, BlockReplyView, Fetch, KernelReply, MarketFeed, OutputReply, OutputsPage,
    PeerReply, PeerReplyView, PriceQuote, RpcError, StatusReply, StatusReplyView, BLOCKS_PER_CALL,
};
use crate::statistics::Statistics;
use crate::text::{decimal, format_number, number_of, parse_number, same_text};

verus! {

/// Why a collector had nothing to do.
#[derive(Debug, Clone, Copy, PartialEq, Eq, Structural)]
pub enum Skip {
    /// The height of the chain is not known yet.
    HeightUnknown,
    /// The chain is not longer than the difficulty window.
    WindowNotReached,
    /// The node answered with nothing.
    NothingReported,
    /// The node runs elsewhere and has no chain data here.
    NoLocalData,
}

/// Why a collector could not do its work.
#[derive(Debug, Clone, Copy, PartialEq, Eq, Structural)]
pub enum Failure {
    /// A call failed.
    Call(RpcError),
    /// The chain data of the local node were not found.
    PathMissing,
    /// The timestamp of a block header could not be read.
    Timestamp,
    /// The total difficulty at the tip is below the one at the start of
    /// the window.
    Difficulty,
    /// The totals of a window do not fit in 64 bits.
    Overflow,
}

/// How a collector ended.
#[derive(Debug, Clone, Copy, PartialEq, Eq, Structural)]
pub enum Outcome {
    /// It wrote what it collected.
    Updated,
    /// It had nothing to do: no error, nothing written.
    Skipped(Skip),
    /// It failed: nothing written.
    Failed(Failure),
}

/// The chain that a node is taken to run when it does not say.
pub open spec fn default_chain() -> Seq<char> {
    "main"@
}

/// The dashboard after a status answer: height, sync state, versions and
/// chain from the status, and the size of the kernel MMR where the block
/// at the tip brought one.
pub open spec fn status_applied(
    before: DashboardView,
    status: StatusReplyView,
    kernel_mmr_size: Option<u64>,
) -> DashboardView {
    DashboardView {
        height: Some(status.height),
        sync: status.sync_status,
        node_ver: status.user_agent,
        proto_ver: Some(status.protocol_version),
        chain: match status.chain {
            Some(chain) => chain,
            None => default_chain(),
        },
        kernel_mmr_size: match kernel_mmr_size {
            Some(size) => Some(size),
            None => before.kernel_mmr_size,
        },
        ..before
    }
}

/// What the status collector makes of its two answers.
pub open spec fn status_outcome(status: Fetch<StatusReply>, tip: Fetch<BlockReply>) -> Outcome {
    match status {
        Fetch::Reply(_) => match tip {
            Fetch::Failed(error) => Outcome::Failed(Failure::Call(error)),
            _ => Outcome::Updated,
        },
        Fetch::Empty => Outcome::Skipped(Skip::NothingReported),
        Fetch::Failed(error) => Outcome::Failed(Failure::Call(error)),
    }
}

/// Status: takes the answer to `get_status` and the block at the height
/// it reports. Writes height, sync state, node and protocol version and
/// chain, and the size of the kernel MMR unless the block came back
/// empty. A failed call of either leaves the dashboard as it was.
pub fn get_status(
    dashboard: &mut Dashboard,
    status: &Fetch<StatusReply>,
    tip: &Fetch<BlockReply>,
) -> (outcome: Outcome)
    ensures
        outcome == status_outcome(*status, *tip),
        outcome != Outcome::Updated ==> *final(dashboard) == *old(dashboard),
        outcome == Outcome::Updated ==> final(dashboard)@ == status_applied(
            old(dashboard)@,
            status->Reply_0@,
            match *tip {
                Fetch::Reply(block) => Some(block.kernel_mmr_size),
                _ => None,
            },
        ),
{
    match status {
        Fetch::Reply(reply) => {
            match tip {
                Fetch::Failed(error) => {
                    return Outcome::Failed(Failure::Call(*error));
                },
                Fetch::Reply(block) => {
                    dashboard.kernel_mmr_size = Some(block.kernel_mmr_size);
                },
                Fetch::Empty => {},
            }
            dashboard.height = Some(reply.height);
            dashboard.sync = reply.sync_status.clone();
            dashboard.node_ver = reply.user_agent.clone();
            dashboard.proto_ver = Some(reply.protocol_version);
            dashboard.chain = match &reply.chain {
                Some(chain) => chain.clone(),
                None => String::from_str("main"),
            };
            Outcome::Updated
        },
        Fetch::Empty => Outcome::Skipped(Skip::NothingReported),
        Fetch::Failed(error) => Outcome::Failed(Failure::Call(*error)),
    }
}

/// What the mempool collector makes of its two answers.
pub open spec fn mempool_outcome(pool: Fetch<u64>, stem: Fetch<u64>) -> Outcome {
    match pool {
        Fetch::Failed(error) => Outcome::Failed(Failure::Call(error)),
        Fetch::Empty => match stem {
            Fetch::Failed(error) => Outcome::Failed(Failure::Call(error)),
            _ => Outcome::Skipped(Skip::NothingReported),
        },
        Fetch::Reply(_) => match stem {
            Fetch::Failed(error) => Outcome::Failed(Failure::Call(error)),
            Fetch::Empty => Outcome::Skipped(Skip::NothingReported),
            Fetch::Reply(_) => Outcome::Updated,
        },
    }
}

/// Mempool: takes the sizes of the pool and of the stem pool and writes
/// both as they came. Without both it writes neither.
pub fn get_mempool(dashboard: &mut Dashboard, pool: &Fetch<u64>, stem: &Fetch<u64>) -> (outcome:
    Outcome)
    ensures
        outcome == mempool_outcome(*pool, *stem),
        outcome != Outcome::Updated ==> *final(dashboard) == *old(dashboard),
        outcome == Outcome::Updated ==> final(dashboard)@ == (DashboardView {
            txns: Some(pool->Reply_0),
            stem: Some(stem->Reply_0),
            ..old(dashboard)@
        }),
{
    match pool {
        Fetch::Failed(error) => Outcome::Failed(Failure::Call(*error)),
        Fetch::Empty => match stem {
            Fetch::Failed(error) => Outcome::Failed(Failure::Call(*error)),
            _ => Outcome::Skipped(Skip::NothingReported),
        },
        Fetch::Reply(txns) => match stem {
            Fetch::Failed(error) => Outcome::Failed(Failure::Call(*error)),
            Fetch::Empty => Outcome::Skipped(Skip::NothingReported),
            Fetch::Reply(stempool) => {
                dashboard.txns = Some(*txns);
                dashboard.stem = Some(*stempool);
                Outcome::Updated
            },
        },
    }
}

/// Cycles between two calls of the price feed.
pub const FEED_PERIOD: u64 = 10;

/// Counts the cycles, so that the price feed is asked in one of ten.
#[derive(Debug, Clone, Copy, PartialEq, Eq, Structural)]
pub struct FeedClock {
    /// Cycles counted so far, modulo 2^64.
    pub calls: u64,
}

impl FeedClock {
    /// A clock that has counted no cycle: the feed is due at once.
    pub fn new() -> (clock: FeedClock)
        ensures
            clock.calls == 0,
    {
        FeedClock { calls: 0 }
    }

    /// Counts one cycle and tells whether the feed is due in it: in the
    /// first cycle and in every tenth after it.
    pub fn tick(&mut self) -> (due: bool)
        ensures
            due == (old(self).calls % 10 == 0),
            final(self).calls == if old(self).calls == u64::MAX {
                0
            } else {
                (old(self).calls + 1) as u64
            },
    {
        let due = self.calls % FEED_PERIOD == 0;
        self.calls = self.calls.wrapping_add(1);
        due
    }
}

/// The dashboard after the analytic part of the market collector:
/// supply, inflation and soft supply at `height`.
pub open spec fn supply_applied(before: DashboardView, height: u64) -> DashboardView {
    DashboardView {
        supply: Some(supply_at(height as nat) as u128),
        inflation: Some(inflation_hundredths(supply_at(height as nat)) as u128),
        soft_supply: Some(soft_supply_hundredths(supply_at(height as nat)) as u128),
        ..before
    }
}

/// The dashboard after a quote: price and volume as quoted, and the
/// capitalisation of the supply at `height` at the quoted prices.
pub open spec fn quote_applied(before: DashboardView, height: u64, quote: PriceQuote) -> DashboardView {
    DashboardView {
        price_usd: Some(quote.usd),
        price_btc: Some(quote.btc),
        volume_usd: Some(quote.usd_24h_vol),
        volume_btc: Some(quote.btc_24h_vol),
        cap_usd: Some(capitalisation(supply_at(height as nat), quote.usd as nat, 1000) as u128),
        cap_btc: Some(
            capitalisation(supply_at(height as nat), quote.btc as nat, 100000000) as u128,
        ),
        ..before
    }
}

/// The dashboard after the market collector ran at a known height.
pub open spec fn market_applied(before: DashboardView, height: u64, feed: MarketFeed) -> DashboardView {
    match feed {
        MarketFeed::Quote(quote) => quote_applied(supply_applied(before, height), height, quote),
        _ => supply_applied(before, height),
    }
}

/// Market: derives supply, inflation and soft supply from the height, and
/// takes price, volume and capitalisation from the feed's quote. Without
/// a quote, whether the feed was not asked, refused or failed, the price
/// fields stay as they were. Without a height nothing is written.
pub fn get_market(dashboard: &mut Dashboard, feed: &MarketFeed) -> (outcome: Outcome)
    ensures
        old(dashboard).height is None ==> outcome == Outcome::Skipped(Skip::HeightUnknown)
            && *final(dashboard) == *old(dashboard),
        old(dashboard).height matches Some(height) ==> outcome == Outcome::Updated
            && final(dashboard)@ == market_applied(old(dashboard)@, height, *feed),
{
    match dashboard.height {
        None => Outcome::Skipped(Skip::HeightUnknown),
        Some(height) => {
            let supply = coin_supply(height);
            dashboard.supply = Some(supply);
            dashboard.inflation = Some(inflation_rate(height));
            dashboard.soft_supply = Some(soft_supply_rate(height));
            match feed {
                MarketFeed::Quote(quote) => {
                    dashboard.price_usd = Some(quote.usd);
                    dashboard.price_btc = Some(quote.btc);
                    dashboard.volume_usd = Some(quote.usd_24h_vol);
                    dashboard.volume_btc = Some(quote.btc_24h_vol);
                    dashboard.cap_usd = Some(market_cap_usd(height, quote.usd));
                    dashboard.cap_btc = Some(market_cap_btc(height, quote.btc));
                },
                _ => {},
            }
            Outcome::Updated
        },
    }
}

/// The directory that holds the chain data of `chain` below `grin_dir`.
pub open spec fn chain_data_text(grin_dir: Seq<char>, chain: Seq<char>) -> Seq<char> {
    grin_dir + "/"@ + chain + "/chain_data"@
}

/// The directory whose size is the disk usage of the chain `chain`.
pub fn chain_data_path(grin_dir: &str, chain: &str) -> (path: String)
    ensures
        path@ == chain_data_text(grin_dir@, chain@),
{
    let mut path = String::from_str(grin_dir);
    path.append("/");
    path.append(chain);
    path.append("/chain_data");
    path
}

/// Whether `host` names this machine.
pub open spec fn is_loopback(host: Seq<char>) -> bool {
    host == "127.0.0.1"@ || host == "localhost"@ || host == "::1"@
}

/// Whether the node at `host` runs on this machine, so that its chain
/// data are expected on the local disk.
pub fn runs_locally(host: &str) -> (local: bool)
    ensures
        local == is_loopback(host@),
{
    same_text(host, "127.0.0.1") || same_text(host, "localhost") || same_text(host, "::1")
}

/// Disk usage: takes the size in bytes of the chain data directory, or
/// `None` where there is no such directory, and writes it in hundredths
/// of a gigabyte. A missing directory is a failure for a node on this
/// machine and nothing to report for a node elsewhere.
pub fn get_disk_usage(dashboard: &mut Dashboard, size: Option<u64>, host: &str) -> (outcome:
    Outcome)
    ensures
        size matches Some(bytes) ==> outcome == Outcome::Updated && final(dashboard)@ == (
        DashboardView {
            disk_usage: Some(gigabyte_hundredths(bytes as nat) as u128),
            ..old(dashboard)@
        }),
        size is None ==> *final(dashboard) == *old(dashboard) && outcome == if is_loopback(host@) {
            Outcome::Failed(Failure::PathMissing)
        } else {
            Outcome::Skipped(Skip::NoLocalData)
        },
{
    match size {
        Some(bytes) => {
            dashboard.disk_usage = Some(disk_gigabytes(bytes));
            Outcome::Updated
        },
        None => {
            if runs_locally(host) {
                Outcome::Failed(Failure::PathMissing)
            } else {
                Outcome::Skipped(Skip::NoLocalData)
            }
        },
    }
}

/// The heights of the two ends of the difficulty window below a tip at
/// `height`: the tip and the block 1440 below it. There is no window
/// unless the chain is higher than 1440.
pub open spec fn window_ends(height: Option<u64>) -> Option<(u64, u64)> {
    match height {
        Some(tip) => if tip > 1440 {
            Some((tip, (tip - 1440) as u64))
        } else {
            None
        },
        None => None,
    }
}

/// The two blocks that the mining collector asks for, tip first; `None`
/// where the height is unknown or not above the difficulty window.
pub fn mining_window(dashboard: &Dashboard) -> (ends: Option<(u64, u64)>)
    ensures
        ends == window_ends(dashboard.height),
{
    match dashboard.height {
        Some(tip) => {
            if tip > DIFFICULTY_WINDOW {
                Some((tip, tip - DIFFICULTY_WINDOW))
            } else {
                None
            }
        },
        None => None,
    }
}

/// What the mining collector makes of a height and two answers.
pub open spec fn mining_outcome(
    height: Option<u64>,
    tip: Fetch<BlockReply>,
    base: Fetch<BlockReply>,
) -> Outcome {
    match height {
        None => Outcome::Skipped(Skip::HeightUnknown),
        Some(h) => if h <= 1440 {
            Outcome::Skipped(Skip::WindowNotReached)
        } else {
            match tip {
                Fetch::Failed(error) => Outcome::Failed(Failure::Call(error)),
                Fetch::Empty => match base {
                    Fetch::Failed(error) => Outcome::Failed(Failure::Call(error)),
                    _ => Outcome::Skipped(Skip::NothingReported),
                },
                Fetch::Reply(top) => match base {
                    Fetch::Failed(error) => Outcome::Failed(Failure::Call(error)),
                    Fetch::Empty => Outcome::Skipped(Skip::NothingReported),
                    Fetch::Reply(bottom) => if top.total_difficulty >= bottom.total_difficulty {
                        Outcome::Updated
                    } else {
                        Outcome::Failed(Failure::Difficulty)
                    },
                },
            }
        },
    }
}

/// The dashboard after the mining collector found the difficulty
/// `difficulty`: difficulty and graph rate always; the production cost
/// where a price is known; reward ratio and break-even cost where a price
/// is known and the difficulty is not zero.
pub open spec fn mining_applied(before: DashboardView, difficulty: u64) -> DashboardView {
    let rates = DashboardView {
        difficulty: Some(difficulty),
        hashrate: Some(graph_rate_hundredths(difficulty as nat) as u128),
        hashrate_kgs: Some(kilo_graph_rate_hundredths(difficulty as nat) as u128),
        ..before
    };
    match before.price_usd {
        None => rates,
        Some(price) => {
            let costed = DashboardView {
                production_cost: Some(production_cost_thousandths(difficulty as nat) as u128),
                ..rates
            };
            if difficulty == 0 {
                costed
            } else {
                DashboardView {
                    reward_ratio: Some(
                        reward_ratio_hundredths(price as nat, difficulty as nat) as u128,
                    ),
                    breakeven_cost: Some(
                        breakeven_hundredths(price as nat, difficulty as nat) as u128,
                    ),
                    ..costed
                }
            }
        },
    }
}

/// Mining: takes the blocks at the two ends of the difficulty window and
/// writes the difficulty averaged over it, the graph rate, and, where a
/// price is known, the economics of the reference miner. At a height
/// that is unknown or not above 1440 it writes nothing.
pub fn get_mining_stats(
    dashboard: &mut Dashboard,
    tip: &Fetch<BlockReply>,
    base: &Fetch<BlockReply>,
) -> (outcome: Outcome)
    ensures
        outcome == mining_outcome(old(dashboard).height, *tip, *base),
        outcome != Outcome::Updated ==> *final(dashboard) == *old(dashboard),
        outcome == Outcome::Updated ==> final(dashboard)@ == mining_applied(
            old(dashboard)@,
            window_difficulty(
                tip->Reply_0.total_difficulty as nat,
                base->Reply_0.total_difficulty as nat,
            ) as u64,
        ),
{
    match mining_window(dashboard) {
        None => {
            match dashboard.height {
                None => Outcome::Skipped(Skip::HeightUnknown),
                Some(_) => Outcome::Skipped(Skip::WindowNotReached),
            }
        },
        Some(_) => {
            match tip {
                Fetch::Failed(error) => Outcome::Failed(Failure::Call(*error)),
                Fetch::Empty => match base {
                    Fetch::Failed(error) => Outcome::Failed(Failure::Call(*error)),
                    _ => Outcome::Skipped(Skip::NothingReported),
                },
                Fetch::Reply(top) => match base {
                    Fetch::Failed(error) => Outcome::Failed(Failure::Call(*error)),
                    Fetch::Empty => Outcome::Skipped(Skip::NothingReported),
                    Fetch::Reply(bottom) => {
                        match network_difficulty(top.total_difficulty, bottom.total_difficulty) {
                            None => Outcome::Failed(Failure::Difficulty),
                            Some(difficulty) => {
                                dashboard.difficulty = Some(difficulty);
                                dashboard.hashrate = Some(graph_rate(difficulty));
                                dashboard.hashrate_kgs = Some(kilo_graph_rate(difficulty));
                                match dashboard.price_usd {
                                    None => {},
                                    Some(price) => {
                                        dashboard.production_cost = Some(production_cost(difficulty));
                                        match reward_ratio(price, difficulty) {
                                            Some(ratio) => {
                                                dashboard.reward_ratio = Some(ratio);
                                            },
                                            None => {},
                                        }
                                        match breakeven_cost(price, difficulty) {
                                            Some(cost) => {
                                                dashboard.breakeven_cost = Some(cost);
                                            },
                                            None => {},
                                        }
                                    },
                                }
                                Outcome::Updated
                            },
                        }
                    },
                },
            }
        },
    }
}

/// At a height of 1440 or below, and at an unknown one, the mining
/// collector writes neither difficulty nor graph rate, whatever the
/// answers are: it is skipped.
pub proof fn law_no_mining_below_window(
    height: Option<u64>,
    tip: Fetch<BlockReply>,
    base: Fetch<BlockReply>,
)
    requires
        height matches Some(h) ==> h <= 1440,
    ensures
        mining_outcome(height, tip, base) is Skipped,
        window_ends(height) is None,
{
}

/// The height of the dashboard in decimal notation; empty while unknown.
pub open spec fn height_text(height: Option<u64>) -> Seq<char> {
    match height {
        Some(h) => decimal(h as nat),
        None => Seq::empty(),
    }
}

/// The current block height as text; empty while it is unknown.
pub fn get_current_height(dashboard: &Dashboard) -> (height: String)
    ensures
        height@ == height_text(dashboard.height),
{
    match dashboard.height {
        Some(h) => format_number(h as u128),
        None => String::new(),
    }
}

/// Sum of the fees of `kernels`.
pub open spec fn fee_total(kernels: Seq<KernelEntryView>) -> nat
    decreases kernels.len(),
{
    if kernels.len() == 0 {
        0
    } else {
        fee_total(kernels.drop_last()) + kernels.last().fee as nat
    }
}

/// A sum of fees is bounded by their number.
proof fn lemma_fee_total_bound(kernels: Seq<KernelEntryView>)
    ensures
        fee_total(kernels) <= kernels.len() * u64::MAX,
    decreases kernels.len(),
{
    if kernels.len() > 0 {
        lemma_fee_total_bound(kernels.drop_last());
    }
}

/// The fees of the kernels of a block, summed.
pub fn sum_fees(kernels: &Vec<KernelEntry>) -> (total: u128)
    ensures
        total == fee_total(kernels_of(kernels@)),
{
    let ghost all = kernels_of(kernels@);
    let mut total: u128 = 0;
    let mut i: usize = 0;
    while i < kernels.len()
        invariant
            i <= kernels@.len(),
            all == kernels_of(kernels@),
            total == fee_total(all.take(i as int)),
        decreases kernels@.len() - i,
    {
        proof {
            assert(all.take(i + 1).drop_last() =~= all.take(i as int));
            lemma_fee_total_bound(all.take(i + 1));
        }
        total = total + kernels[i].fee as u128;
        i = i + 1;
    }
    assert(all.take(kernels@.len() as int) =~= all);
    total
}

/// The record of a block in a list: hash, height, version, its age at
/// `now`, weight and size computed from the numbers of its kernels,
/// inputs and outputs, and the sum of its fees. The items themselves are
/// not kept.
pub open spec fn listed_block(reply: BlockReplyView, stamp: i64, now: i64) -> BlockView {
    BlockView {
        hash: reply.hash,
        height: Some(reply.height),
        time: block_age_text(stamp, now),
        version: Some(reply.version),
        weight: weight_percent_hundredths(
            reply.kernels.len(),
            reply.inputs.len(),
            reply.outputs.len(),
        ) as u128,
        size: size_of(reply.kernels.len(), reply.inputs.len(), reply.outputs.len()) as u128,
        fees: fee_total(reply.kernels) as u128,
        kernels: Seq::empty(),
        inputs: Seq::empty(),
        outputs: Seq::empty(),
        ker_len: reply.kernels.len() as u64,
        in_len: reply.inputs.len() as u64,
        out_len: reply.outputs.len() as u64,
        raw_data: Seq::empty(),
    }
}

/// What reading one block for a list gives: the outcome and, where it is
/// `Updated`, the record.
pub open spec fn list_data_outcome(reply: Fetch<BlockReply>) -> Outcome {
    match reply {
        Fetch::Reply(block) => match timestamp_of(block.timestamp@) {
            Some(_) => Outcome::Updated,
            None => Outcome::Failed(Failure::Timestamp),
        },
        Fetch::Empty => Outcome::Skipped(Skip::NothingReported),
        Fetch::Failed(error) => Outcome::Failed(Failure::Call(error)),
    }
}

/// Reads one block for a list, seen at the second `now`. On anything but
/// a block with a readable timestamp `block` stays as it was.
pub fn block_list_data_at(reply: &Fetch<BlockReply>, now: i64, block: &mut Block) -> (outcome:
    Outcome)
    ensures
        outcome == list_data_outcome(*reply),
        outcome != Outcome::Updated ==> *final(block) == *old(block),
        outcome == Outcome::Updated ==> final(block)@ == listed_block(
            reply->Reply_0@,
            timestamp_of(reply->Reply_0.timestamp@)->0,
            now,
        ),
{
    match reply {
        Fetch::Reply(found) => {
            match parse_timestamp(found.timestamp.as_str()) {
                None => Outcome::Failed(Failure::Timestamp),
                Some(stamp) => {
                    let kernels = found.kernels.len() as u64;
                    let inputs = found.inputs.len() as u64;
                    let outputs = found.outputs.len() as u64;
                    let listed = Block {
                        hash: found.hash.clone(),
                        height: Some(found.height),
                        time: block_age(stamp, now),
                        version: Some(found.version),
                        weight: block_weight_percent(kernels, inputs, outputs),
                        size: block_size(kernels, inputs, outputs),
                        fees: sum_fees(&found.kernels),
                        kernels: Vec::new(),
                        inputs: Vec::new(),
                        outputs: Vec::new(),
                        ker_len: kernels,
                        in_len: inputs,
                        out_len: outputs,
                        raw_data: String::new(),
                    };
                    proof {
                        assert(listed@.kernels =~= Seq::empty());
                        assert(listed@.inputs =~= Seq::empty());
                        assert(listed@.outputs =~= Seq::empty());
                    }
                    *block = listed;
                    Outcome::Updated
                },
            }
        },
        Fetch::Empty => Outcome::Skipped(Skip::NothingReported),
        Fetch::Failed(error) => Outcome::Failed(Failure::Call(*error)),
    }
}

/// Reads one block for a list, its age taken at the time of the call.
pub fn get_block_list_data(reply: &Fetch<BlockReply>, block: &mut Block) -> (outcome: Outcome)
    ensures
        outcome == list_data_outcome(*reply),
        outcome != Outcome::Updated ==> *final(block) == *old(block),
        outcome == Outcome::Updated ==> exists|now: i64|
            final(block)@ == #[trigger] listed_block(
                reply->Reply_0@,
                timestamp_of(reply->Reply_0.timestamp@)->0,
                now,
            ),
{
    let now = now_seconds();
    block_list_data_at(reply, now, block)
}

/// The record that a list shows for an answer: the block where one came
/// with a readable timestamp, and an empty record otherwise.
pub open spec fn listed_or_empty(reply: Fetch<BlockReply>, now: i64) -> BlockView {
    match reply {
        Fetch::Reply(block) => match timestamp_of(block.timestamp@) {
            Some(stamp) => listed_block(block@, stamp, now),
            None => empty_block(),
        },
        _ => empty_block(),
    }
}

/// The blocks of a sequence as plain values.
pub open spec fn blocks_of(v: Seq<Block>) -> Seq<BlockView> {
    Seq::new(v.len(), |i: int| v[i]@)
}

/// The list made of a sequence of answers, seen at `now`.
pub open spec fn listed_blocks(replies: Seq<Fetch<BlockReply>>, now: i64) -> Seq<BlockView> {
    Seq::new(replies.len(), |i: int| listed_or_empty(replies[i], now))
}

/// The records of a list of answers, one for each in their order.
pub fn list_blocks(replies: &Vec<Fetch<BlockReply>>, now: i64) -> (blocks: Vec<Block>)
    ensures
        blocks_of(blocks@) == listed_blocks(replies@, now),
{
    let mut blocks: Vec<Block> = Vec::new();
    let mut i: usize = 0;
    while i < replies.len()
        invariant
            i <= replies@.len(),
            blocks@.len() == i,
            forall|k: int| 0 <= k < i ==> (#[trigger] blocks@[k])@ == listed_or_empty(replies@[k], now),
        decreases replies@.len() - i,
    {
        let mut block = Block::new();
        let _ = block_list_data_at(&replies[i], now, &mut block);
        blocks.push(block);
        i = i + 1;
    }
    blocks
}

/// The first of the ten heights of a list that ends at `height`: the
/// height itself, but 9 where it is lower, so that ten blocks remain.
pub open spec fn list_top(height: u64) -> u64 {
    if height < 9 {
        9
    } else {
        height
    }
}

/// The ten heights of a list that ends at `height`, highest first.
pub open spec fn list_heights(height: u64) -> Seq<u64> {
    Seq::new(10, |i: int| (list_top(height) - i) as u64)
}

/// The ten heights shown for a tip at `height`, highest first.
pub fn recent_heights(height: u64) -> (heights: Vec<u64>)
    ensures
        heights@ == list_heights(height),
{
    let top = if height < 9 {
        9
    } else {
        height
    };
    let mut heights: Vec<u64> = Vec::new();
    let mut i: u64 = 0;
    while i < 10
        invariant
            i <= 10,
            top >= 9,
            top == list_top(height),
            heights@.len() == i,
            forall|k: int| 0 <= k < i ==> heights@[k] == top - k,
        decreases 10 - i,
    {
        heights.push(top - i);
        i = i + 1;
    }
    heights
}

/// Recent blocks, seen at `now`: replaces the whole list by the records
/// of `replies`, the answers for the heights of `recent_heights`. While
/// the height is unknown the list stays as it was.
pub fn recent_blocks_at(
    dashboard: &Dashboard,
    replies: &Vec<Fetch<BlockReply>>,
    now: i64,
    blocks: &mut Vec<Block>,
) -> (outcome: Outcome)
    ensures
        dashboard.height is None ==> outcome == Outcome::Skipped(Skip::HeightUnknown)
            && *final(blocks) == *old(blocks),
        dashboard.height is Some ==> outcome == Outcome::Updated && blocks_of(final(blocks)@)
            == listed_blocks(replies@, now),
{
    match dashboard.height {
        None => Outcome::Skipped(Skip::HeightUnknown),
        Some(_) => {
            *blocks = list_blocks(replies, now);
            Outcome::Updated
        },
    }
}

/// Recent blocks, their ages taken at the time of the call.
pub fn get_recent_blocks(
    dashboard: &Dashboard,
    replies: &Vec<Fetch<BlockReply>>,
    blocks: &mut Vec<Block>,
) -> (outcome: Outcome)
    ensures
        dashboard.height is None ==> outcome == Outcome::Skipped(Skip::HeightUnknown)
            && *final(blocks) == *old(blocks),
        dashboard.height is Some ==> outcome == Outcome::Updated && exists|now: i64|
            blocks_of(final(blocks)@) == #[trigger] listed_blocks(replies@, now),
{
    let now = now_seconds();
    recent_blocks_at(dashboard, replies, now, blocks)
}

/// A copy of a list of kernels.
pub fn copy_kernels(kernels: &Vec<KernelEntry>) -> (copy: Vec<KernelEntry>)
    ensures
        kernels_of(copy@) == kernels_of(kernels@),
{
    let mut copy: Vec<KernelEntry> = Vec::new();
    let mut i: usize = 0;
    while i < kernels.len()
        invariant
            i <= kernels@.len(),
            copy@.len() == i,
            forall|k: int| 0 <= k < i ==> (#[trigger] copy@[k])@ == kernels@[k]@,
        decreases kernels@.len() - i,
    {
        let kernel = &kernels[i];
        copy.push(
            KernelEntry {
                excess: kernel.excess.clone(),
                features: kernel.features.clone(),
                fee: kernel.fee,
            },
        );
        i = i + 1;
    }
    copy
}

/// A copy of a list of outputs.
pub fn copy_outputs(outputs: &Vec<OutputEntry>) -> (copy: Vec<OutputEntry>)
    ensures
        outputs_of(copy@) == outputs_of(outputs@),
{
    let mut copy: Vec<OutputEntry> = Vec::new();
    let mut i: usize = 0;
    while i < outputs.len()
        invariant
            i <= outputs@.len(),
            copy@.len() == i,
            forall|k: int| 0 <= k < i ==> (#[trigger] copy@[k])@ == outputs@[k]@,
        decreases outputs@.len() - i,
    {
        let output = &outputs[i];
        copy.push(
            OutputEntry { commit: output.commit.clone(), output_type: output.output_type.clone() },
        );
        i = i + 1;
    }
    copy
}

/// A copy of a list of texts.
pub fn copy_texts(texts: &Vec<String>) -> (copy: Vec<String>)
    ensures
        texts_of(copy@) == texts_of(texts@),
{
    let mut copy: Vec<String> = Vec::new();
    let mut i: usize = 0;
    while i < texts.len()
        invariant
            i <= texts@.len(),
            copy@.len() == i,
            forall|k: int| 0 <= k < i ==> (#[trigger] copy@[k])@ == texts@[k]@,
        decreases texts@.len() - i,
    {
        copy.push(texts[i].clone());
        i = i + 1;
    }
    copy
}

/// The record of a block in full: what a list shows of it, with its time
/// written out, its kernels, inputs and outputs, and the node's answer.
pub open spec fn detailed_block(reply: BlockReplyView, time: Seq<char>) -> BlockView {
    BlockView {
        hash: reply.hash,
        height: Some(reply.height),
        time,
        version: Some(reply.version),
        weight: weight_percent_hundredths(
            reply.kernels.len(),
            reply.inputs.len(),
            reply.outputs.len(),
        ) as u128,
        size: size_of(reply.kernels.len(), reply.inputs.len(), reply.outputs.len()) as u128,
        fees: fee_total(reply.kernels) as u128,
        kernels: reply.kernels,
        inputs: reply.inputs,
        outputs: reply.outputs,
        ker_len: reply.kernels.len() as u64,
        in_len: reply.inputs.len() as u64,
        out_len: reply.outputs.len() as u64,
        raw_data: reply.raw,
    }
}

/// The time of a block written in full, where its timestamp can be read
/// and written again.
pub open spec fn block_time_text(timestamp: Seq<char>) -> Option<Seq<char>> {
    match timestamp_of(timestamp) {
        Some(stamp) => full_time_text(stamp),
        None => None,
    }
}

/// What reading one block in full gives.
pub open spec fn block_data_outcome(reply: Fetch<BlockReply>) -> Outcome {
    match reply {
        Fetch::Reply(block) => match block_time_text(block.timestamp@) {
            Some(_) => Outcome::Updated,
            None => Outcome::Failed(Failure::Timestamp),
        },
        Fetch::Empty => Outcome::Skipped(Skip::NothingReported),
        Fetch::Failed(error) => Outcome::Failed(Failure::Call(error)),
    }
}

/// Reads one block in full. On anything but a block with a readable
/// timestamp `block` stays as it was.
pub fn get_block_data(reply: &Fetch<BlockReply>, block: &mut Block) -> (outcome: Outcome)
    ensures
        outcome == block_data_outcome(*reply),
        outcome != Outcome::Updated ==> *final(block) == *old(block),
        outcome == Outcome::Updated ==> final(block)@ == detailed_block(
            reply->Reply_0@,
            block_time_text(reply->Reply_0.timestamp@)->0,
        ),
{
    match reply {
        Fetch::Reply(found) => {
            let written = match parse_timestamp(found.timestamp.as_str()) {
                Some(stamp) => full_time(stamp),
                None => None,
            };
            match written {
                None => Outcome::Failed(Failure::Timestamp),
                Some(time) => {
                    let kernels = found.kernels.len() as u64;
                    let inputs = found.inputs.len() as u64;
                    let outputs = found.outputs.len() as u64;
                    let detailed = Block {
                        hash: found.hash.clone(),
                        height: Some(found.height),
                        time,
                        version: Some(found.version),
                        weight: block_weight_percent(kernels, inputs, outputs),
                        size: block_size(kernels, inputs, outputs),
                        fees: sum_fees(&found.kernels),
                        kernels: copy_kernels(&found.kernels),
                        inputs: copy_texts(&found.inputs),
                        outputs: copy_outputs(&found.outputs),
                        ker_len: kernels,
                        in_len: inputs,
                        out_len: outputs,
                        raw_data: found.raw.clone(),
                    };
                    *block = detailed;
                    Outcome::Updated
                },
            }
        },
        Fetch::Empty => Outcome::Skipped(Skip::NothingReported),
        Fetch::Failed(error) => Outcome::Failed(Failure::Call(*error)),
    }
}

/// What a lookup makes of its answer.
pub open spec fn lookup_outcome<T>(reply: Fetch<T>) -> Outcome {
    match reply {
        Fetch::Reply(_) => Outcome::Updated,
        Fetch::Empty => Outcome::Skipped(Skip::NothingReported),
        Fetch::Failed(error) => Outcome::Failed(Failure::Call(error)),
    }
}

/// Height of the block with a given hash: takes the answer to
/// `get_header` and writes the height it holds. Without one `height`
/// stays as it was.
pub fn get_block_header(reply: &Fetch<u64>, height: &mut Option<u64>) -> (outcome: Outcome)
    ensures
        outcome == lookup_outcome(*reply),
        *final(height) == match *reply {
            Fetch::Reply(found) => Some(found),
            _ => *old(height),
        },
{
    match reply {
        Fetch::Reply(found) => {
            *height = Some(*found);
            Outcome::Updated
        },
        Fetch::Empty => Outcome::Skipped(Skip::NothingReported),
        Fetch::Failed(error) => Outcome::Failed(Failure::Call(*error)),
    }
}

/// The text that says where a kernel or an output was found.
pub open spec fn confirmed() -> Seq<char> {
    "Confirmed"@
}

/// Looks a kernel up: takes the answer to `get_kernel` and writes the
/// record of the kernel it holds. Without one `kernel` stays as it was.
pub fn get_kernel(reply: &Fetch<KernelReply>, kernel: &mut Kernel) -> (outcome: Outcome)
    ensures
        outcome == lookup_outcome(*reply),
        outcome != Outcome::Updated ==> *final(kernel) == *old(kernel),
        outcome == Outcome::Updated ==> final(kernel)@ == (KernelView {
            height: Some(reply->Reply_0.height),
            excess: reply->Reply_0.kernel.excess@,
            ker_type: reply->Reply_0.kernel.features@,
            fee: reply->Reply_0.kernel.fee,
            status: confirmed(),
            raw_data: reply->Reply_0.raw@,
        }),
{
    match reply {
        Fetch::Reply(found) => {
            *kernel = Kernel {
                height: Some(found.height),
                excess: found.kernel.excess.clone(),
                ker_type: found.kernel.features.clone(),
                fee: found.kernel.fee,
                status: String::from_str("Confirmed"),
                raw_data: found.raw.clone(),
            };
            Outcome::Updated
        },
        Fetch::Empty => Outcome::Skipped(Skip::NothingReported),
        Fetch::Failed(error) => Outcome::Failed(Failure::Call(*error)),
    }
}

/// Looks an unspent output up: takes the answer to `get_outputs` and
/// writes the record of the output it holds. Without one `output` stays
/// as it was.
pub fn get_output(reply: &Fetch<OutputReply>, output: &mut Output) -> (outcome: Outcome)
    ensures
        outcome == lookup_outcome(*reply),
        outcome != Outcome::Updated ==> *final(output) == *old(output),
        outcome == Outcome::Updated ==> final(output)@ == (OutputView {
            height: Some(reply->Reply_0.height),
            commit: reply->Reply_0.output.commit@,
            out_type: reply->Reply_0.output.output_type@,
            status: confirmed(),
            raw_data: reply->Reply_0.raw@,
        }),
{
    match reply {
        Fetch::Reply(found) => {
            *output = Output {
                height: Some(found.height),
                commit: found.output.commit.clone(),
                out_type: found.output.output_type.clone(),
                status: String::from_str("Confirmed"),
                raw_data: found.raw.clone(),
            };
            Outcome::Updated
        },
        Fetch::Empty => Outcome::Skipped(Skip::NothingReported),
        Fetch::Failed(error) => Outcome::Failed(Failure::Call(*error)),
    }
}

/// Blocks of the window that stands for the last hour.
pub const HOUR_BLOCKS: usize = 60;

/// The record that keeps the kernels of a block and nothing else.
pub open spec fn kernels_only(kernels: Seq<KernelEntryView>) -> BlockView {
    BlockView { kernels, ..empty_block() }
}

/// The records that `get_block_kernels` makes of the blocks of an answer.
pub open spec fn kernel_records(replies: Seq<BlockReply>) -> Seq<BlockView> {
    Seq::new(replies.len(), |i: int| kernels_only(replies[i]@.kernels))
}

/// Kernels of a range of blocks: takes the answer to `get_blocks` and
/// appends, for each of its blocks in their order, a record that holds
/// the block's kernels. Without an answer `blocks` stays as it was.
pub fn get_block_kernels(reply: &Fetch<Vec<BlockReply>>, blocks: &mut Vec<Block>) -> (outcome:
    Outcome)
    ensures
        outcome == lookup_outcome(*reply),
        outcome != Outcome::Updated ==> *final(blocks) == *old(blocks),
        outcome == Outcome::Updated ==> blocks_of(final(blocks)@) == blocks_of(old(blocks)@)
            + kernel_records(reply->Reply_0@),
{
    match reply {
        Fetch::Reply(found) => {
            let ghost before = blocks_of(blocks@);
            let mut i: usize = 0;
            while i < found.len()
                invariant
                    i <= found@.len(),
                    blocks_of(blocks@) == before + kernel_records(found@).take(i as int),
                decreases found@.len() - i,
            {
                let mut block = Block::new();
                block.kernels = copy_kernels(&found[i].kernels);
                let ghost had = blocks_of(blocks@);
                let ghost added = block@;
                blocks.push(block);
                proof {
                    assert(blocks_of(blocks@) =~= had.push(added));
                }
                i = i + 1;
            }
            Outcome::Updated
        },
        Fetch::Empty => Outcome::Skipped(Skip::NothingReported),
        Fetch::Failed(error) => Outcome::Failed(Failure::Call(*error)),
    }
}

/// Whether a kernel counts as a transaction: any kernel but a coinbase.
pub open spec fn is_plain(kernel: KernelEntryView) -> bool {
    kernel.features != "Coinbase"@
}

/// Number of kernels of `kernels` that are no coinbase.
pub open spec fn plain_count(kernels: Seq<KernelEntryView>) -> nat
    decreases kernels.len(),
{
    if kernels.len() == 0 {
        0
    } else {
        plain_count(kernels.drop_last()) + if is_plain(kernels.last()) {
            1nat
        } else {
            0nat
        }
    }
}

/// Sum of the fees of the kernels of `kernels` that are no coinbase.
pub open spec fn plain_fees(kernels: Seq<KernelEntryView>) -> nat
    decreases kernels.len(),
{
    if kernels.len() == 0 {
        0
    } else {
        plain_fees(kernels.drop_last()) + if is_plain(kernels.last()) {
            kernels.last().fee as nat
        } else {
            0nat
        }
    }
}

/// Number of transactions in the blocks of `blocks`.
pub open spec fn window_count(blocks: Seq<BlockView>) -> nat
    decreases blocks.len(),
{
    if blocks.len() == 0 {
        0
    } else {
        window_count(blocks.drop_last()) + plain_count(blocks.last().kernels)
    }
}

/// Fees of the transactions in the blocks of `blocks`.
pub open spec fn window_fees(blocks: Seq<BlockView>) -> nat
    decreases blocks.len(),
{
    if blocks.len() == 0 {
        0
    } else {
        window_fees(blocks.drop_last()) + plain_fees(blocks.last().kernels)
    }
}

/// Where the window of the last hour starts in a list of `len` blocks:
/// 60 blocks before its end, or at its start where it is shorter.
pub open spec fn hour_start(len: nat) -> int {
    if len > 60 {
        len - 60
    } else {
        0
    }
}

/// The blocks of the last hour: the latest 60 of the list.
pub open spec fn last_hour(blocks: Seq<BlockView>) -> Seq<BlockView> {
    blocks.subrange(hour_start(blocks.len()), blocks.len() as int)
}

/// The plain kernels of a list are bounded by its length, and their fees
/// by as many times the largest fee.
proof fn lemma_plain_bounds(kernels: Seq<KernelEntryView>)
    ensures
        plain_count(kernels) <= kernels.len(),
        plain_fees(kernels) <= kernels.len() * u64::MAX,
    decreases kernels.len(),
{
    if kernels.len() > 0 {
        lemma_plain_bounds(kernels.drop_last());
    }
}

/// Counts the transactions of one block and sums their fees.
pub fn count_plain(kernels: &Vec<KernelEntry>) -> (totals: (u64, u128))
    ensures
        totals.0 == plain_count(kernels_of(kernels@)),
        totals.1 == plain_fees(kernels_of(kernels@)),
{
    let ghost all = kernels_of(kernels@);
    let mut count: u64 = 0;
    let mut fees: u128 = 0;
    let mut i: usize = 0;
    while i < kernels.len()
        invariant
            i <= kernels@.len(),
            all == kernels_of(kernels@),
            count == plain_count(all.take(i as int)),
            fees == plain_fees(all.take(i as int)),
        decreases kernels@.len() - i,
    {
        proof {
            assert(all.take(i + 1).drop_last() =~= all.take(i as int));
            lemma_plain_bounds(all.take(i + 1));
        }
        if !same_text(kernels[i].features.as_str(), "Coinbase") {
            count = count + 1;
            fees = fees + kernels[i].fee as u128;
        }
        i = i + 1;
    }
    assert(all.take(kernels@.len() as int) =~= all);
    (count, fees)
}

/// A window never holds less than its beginning.
proof fn lemma_window_grows(blocks: Seq<BlockView>, k: int)
    requires
        0 <= k <= blocks.len(),
    ensures
        window_count(blocks.take(k)) <= window_count(blocks),
        window_fees(blocks.take(k)) <= window_fees(blocks),
    decreases blocks.len() - k,
{
    if k < blocks.len() {
        lemma_window_grows(blocks.drop_last(), k);
        assert(blocks.drop_last().take(k) =~= blocks.take(k));
    } else {
        assert(blocks.take(k) =~= blocks);
    }
}

/// The throughput that a list of blocks shows: transactions and fees of
/// its last 60 blocks and of all of it.
pub open spec fn throughput(blocks: Seq<BlockView>) -> Transactions {
    Transactions {
        period_1h: Some(window_count(last_hour(blocks)) as u64),
        period_24h: Some(window_count(blocks) as u64),
        fees_1h: Some(window_fees(last_hour(blocks)) as u64),
        fees_24h: Some(window_fees(blocks) as u64),
    }
}

/// Whether the totals of a list of blocks fit in 64 bits.
pub open spec fn totals_fit(blocks: Seq<BlockView>) -> bool {
    window_count(blocks) <= u64::MAX && window_fees(blocks) <= u64::MAX
}

/// Throughput of a list of blocks, oldest first; `None` where the totals
/// of the whole list do not fit in 64 bits.
pub fn summarize(blocks: &Vec<Block>) -> (summary: Option<Transactions>)
    ensures
        summary == if totals_fit(blocks_of(blocks@)) {
            Some(throughput(blocks_of(blocks@)))
        } else {
            None
        },
{
    let ghost all = blocks_of(blocks@);
    let len = blocks.len();
    let start: usize = if len > HOUR_BLOCKS {
        len - HOUR_BLOCKS
    } else {
        0
    };
    let mut day_count: u64 = 0;
    let mut day_fees: u64 = 0;
    let mut hour_count: u64 = 0;
    let mut hour_fees: u64 = 0;
    let mut i: usize = 0;
    while i < len
        invariant
            i <= len,
            len == blocks@.len(),
            all == blocks_of(blocks@),
            start == hour_start(len as nat),
            start <= len,
            day_count == window_count(all.take(i as int)),
            day_fees == window_fees(all.take(i as int)),
            hour_count == window_count(
                all.subrange(start as int, if i > start {
                    i as int
                } else {
                    start as int
                }),
            ),
            hour_fees == window_fees(
                all.subrange(start as int, if i > start {
                    i as int
                } else {
                    start as int
                }),
            ),
            hour_count <= day_count,
            hour_fees <= day_fees,
        decreases len - i,
    {
        let (count, fees) = count_plain(&blocks[i].kernels);
        proof {
            assert(all.take(i + 1).drop_last() =~= all.take(i as int));
            lemma_window_grows(all, i + 1);
            if i >= start {
                assert(all.subrange(start as int, i + 1).drop_last() =~= all.subrange(
                    start as int,
                    i as int,
                ));
            }
        }
        let next_count = match day_count.checked_add(count) {
            Some(sum) => sum,
            None => {
                return None;
            },
        };
        if fees > u64::MAX as u128 {
            return None;
        }
        let next_fees = match day_fees.checked_add(fees as u64) {
            Some(sum) => sum,
            None => {
                return None;
            },
        };
        day_count = next_count;
        day_fees = next_fees;
        if i >= start {
            hour_count = hour_count + count;
            hour_fees = hour_fees + fees as u64;
        }
        i = i + 1;
    }
    proof {
        assert(all.take(len as int) =~= all);
    }
    Some(
        Transactions {
            period_1h: Some(hour_count),
            period_24h: Some(day_count),
            fees_1h: Some(hour_fees),
            fees_24h: Some(day_fees),
        },
    )
}

/// The two ranges of heights, older first, whose kernels make up the
/// last day below a tip at `height`: 720 blocks each. There is none
/// unless the chain is higher than 1440.
pub open spec fn day_ranges(height: Option<u64>) -> Option<((u64, u64), (u64, u64))> {
    match height {
        Some(tip) => if tip > 1440 {
            Some((((tip - 1440) as u64, (tip - 720) as u64), ((tip - 720) as u64, tip)))
        } else {
            None
        },
        None => None,
    }
}

/// The two ranges that the transaction collector asks for, older first;
/// `None` where the height is unknown or not above 1440.
pub fn txn_windows(dashboard: &Dashboard) -> (ranges: Option<((u64, u64), (u64, u64))>)
    ensures
        ranges == day_ranges(dashboard.height),
{
    match dashboard.height {
        Some(tip) => {
            if tip > DIFFICULTY_WINDOW {
                Some(
                    (
                        (tip - 2 * BLOCKS_PER_CALL, tip - BLOCKS_PER_CALL),
                        (tip - BLOCKS_PER_CALL, tip),
                    ),
                )
            } else {
                None
            }
        },
        None => None,
    }
}

/// The blocks that the transaction collector works on: the kernels of
/// the older answer followed by those of the newer one, an answer that
/// did not come counting for none.
pub open spec fn day_blocks(older: Fetch<Vec<BlockReply>>, newer: Fetch<Vec<BlockReply>>) -> Seq<
    BlockView,
> {
    (match older {
        Fetch::Reply(blocks) => kernel_records(blocks@),
        _ => Seq::empty(),
    }) + (match newer {
        Fetch::Reply(blocks) => kernel_records(blocks@),
        _ => Seq::empty(),
    })
}

/// What the transaction collector makes of a height and two answers.
pub open spec fn txn_outcome(
    height: Option<u64>,
    older: Fetch<Vec<BlockReply>>,
    newer: Fetch<Vec<BlockReply>>,
) -> Outcome {
    match height {
        None => Outcome::Skipped(Skip::HeightUnknown),
        Some(tip) => if tip <= 1440 {
            Outcome::Skipped(Skip::WindowNotReached)
        } else if day_blocks(older, newer).len() == 0 {
            Outcome::Skipped(Skip::NothingReported)
        } else if totals_fit(day_blocks(older, newer)) {
            Outcome::Updated
        } else {
            Outcome::Failed(Failure::Overflow)
        },
    }
}

/// Transaction rate: takes the blocks of the two ranges of `txn_windows`
/// and writes the number and the fees of the kernels that are no
/// coinbase, over the latest 60 blocks and over all of them. An answer
/// that did not come counts for no blocks; with no block at all, at a
/// height that is unknown or not above 1440, and with totals beyond 64
/// bits, nothing is written.
pub fn get_txn_stats(
    dashboard: &Dashboard,
    transactions: &mut Transactions,
    older: &Fetch<Vec<BlockReply>>,
    newer: &Fetch<Vec<BlockReply>>,
) -> (outcome: Outcome)
    ensures
        outcome == txn_outcome(dashboard.height, *older, *newer),
        outcome != Outcome::Updated ==> *final(transactions) == *old(transactions),
        outcome == Outcome::Updated ==> *final(transactions) == throughput(
            day_blocks(*older, *newer),
        ),
{
    match txn_windows(dashboard) {
        None => {
            match dashboard.height {
                None => Outcome::Skipped(Skip::HeightUnknown),
                Some(_) => Outcome::Skipped(Skip::WindowNotReached),
            }
        },
        Some(_) => {
            let mut blocks: Vec<Block> = Vec::new();
            let _ = get_block_kernels(older, &mut blocks);
            let _ = get_block_kernels(newer, &mut blocks);
            if blocks.len() == 0 {
                Outcome::Skipped(Skip::NothingReported)
            } else {
                match summarize(&blocks) {
                    Some(summary) => {
                        *transactions = summary;
                        Outcome::Updated
                    },
                    None => Outcome::Failed(Failure::Overflow),
                }
            }
        },
    }
}

/// Number of peers of `peers` whose direction is `direction`.
pub open spec fn direction_count(peers: Seq<PeerReplyView>, direction: Seq<char>) -> nat
    decreases peers.len(),
{
    if peers.len() == 0 {
        0
    } else {
        direction_count(peers.drop_last(), direction) + if peers.last().direction == direction {
            1nat
        } else {
            0nat
        }
    }
}

/// The user agents of `peers`, peer by peer.
pub open spec fn agents_of(peers: Seq<PeerReplyView>) -> Seq<Seq<char>> {
    Seq::new(peers.len(), |i: int| peers[i].user_agent)
}

/// The user agents of the peers of other nodes: those of every answer
/// that came, in the order of the nodes; a node that did not answer adds
/// none.
pub open spec fn external_agents(external: Seq<Fetch<Vec<PeerReply>>>) -> Seq<Seq<char>>
    decreases external.len(),
{
    if external.len() == 0 {
        Seq::empty()
    } else {
        external_agents(external.drop_last()) + match external.last() {
            Fetch::Reply(peers) => agents_of(peers_of(peers@)),
            _ => Seq::empty(),
        }
    }
}

/// A count by direction is bounded by the number of peers.
proof fn lemma_direction_bound(peers: Seq<PeerReplyView>, direction: Seq<char>)
    ensures
        direction_count(peers, direction) <= peers.len(),
    decreases peers.len(),
{
    if peers.len() > 0 {
        lemma_direction_bound(peers.drop_last(), direction);
    }
}

/// Counts the peers of one direction.
pub fn count_direction(peers: &Vec<PeerReply>, direction: &str) -> (count: u64)
    ensures
        count == direction_count(peers_of(peers@), direction@),
{
    let ghost all = peers_of(peers@);
    let mut count: u64 = 0;
    let mut i: usize = 0;
    while i < peers.len()
        invariant
            i <= peers@.len(),
            all == peers_of(peers@),
            count == direction_count(all.take(i as int), direction@),
        decreases peers@.len() - i,
    {
        proof {
            assert(all.take(i + 1).drop_last() =~= all.take(i as int));
            lemma_direction_bound(all.take(i + 1), direction@);
        }
        if same_text(peers[i].direction.as_str(), direction) {
            count = count + 1;
        }
        i = i + 1;
    }
    assert(all.take(peers@.len() as int) =~= all);
    count
}

/// Appends the user agents of `peers` to `agents`.
fn push_agents(agents: &mut Vec<String>, peers: &Vec<PeerReply>)
    ensures
        texts_of(final(agents)@) == texts_of(old(agents)@) + agents_of(peers_of(peers@)),
{
    let ghost before = texts_of(agents@);
    let ghost added = agents_of(peers_of(peers@));
    let mut i: usize = 0;
    while i < peers.len()
        invariant
            i <= peers@.len(),
            added == agents_of(peers_of(peers@)),
            texts_of(agents@) == before + added.take(i as int),
        decreases peers@.len() - i,
    {
        let ghost had = texts_of(agents@);
        agents.push(peers[i].user_agent.clone());
        proof {
            assert(texts_of(agents@) =~= had.push(peers@[i as int].user_agent@));
        }
        i = i + 1;
    }
}

/// Peers: counts the peers of the local node by direction, and tallies
/// the user agents of its peers and of the peers of every other node
/// that answered into the histogram, whose counts add up to the total.
/// A node that did not answer is left out; without the local node's
/// answer nothing is written.
pub fn get_connected_peers(
    dashboard: &mut Dashboard,
    statistics: &mut Statistics,
    local: &Fetch<Vec<PeerReply>>,
    external: &Vec<Fetch<Vec<PeerReply>>>,
) -> (outcome: Outcome)
    ensures
        outcome == lookup_outcome(*local),
        outcome != Outcome::Updated ==> *final(dashboard) == *old(dashboard) && *final(statistics)
            == *old(statistics),
        outcome == Outcome::Updated ==> {
            let peers = peers_of(local->Reply_0@);
            let agents = agents_of(peers) + external_agents(external@);
            &&& final(dashboard)@ == (DashboardView {
                inbound: direction_count(peers, "Inbound"@) as u64,
                outbound: direction_count(peers, "Outbound"@) as u64,
                ..old(dashboard)@
            })
            &&& is_histogram(final(statistics)@.peers, agents)
            &&& final(statistics)@.total == agents.len()
            &&& counted(final(statistics)@.peers) == agents.len()
            &&& final(statistics)@.days == old(statistics)@.days
        },
{
    match local {
        Fetch::Reply(peers) => {
            let mut agents: Vec<String> = Vec::new();
            push_agents(&mut agents, peers);
            let ghost own = texts_of(agents@);
            let mut i: usize = 0;
            while i < external.len()
                invariant
                    i <= external@.len(),
                    texts_of(agents@) == own + external_agents(external@.take(i as int)),
                decreases external@.len() - i,
            {
                proof {
                    assert(external@.take(i + 1).drop_last() =~= external@.take(i as int));
                }
                match &external[i] {
                    Fetch::Reply(others) => {
                        push_agents(&mut agents, others);
                    },
                    _ => {
                    },
                }
                i = i + 1;
            }
            assert(external@.take(external@.len() as int) =~= external@);
            dashboard.inbound = count_direction(peers, "Inbound");
            dashboard.outbound = count_direction(peers, "Outbound");
            statistics.peers = histogram(&agents);
            statistics.total = agents.len() as u64;
            Outcome::Updated
        },
        Fetch::Empty => Outcome::Skipped(Skip::NothingReported),
        Fetch::Failed(error) => Outcome::Failed(Failure::Call(*error)),
    }
}

/// The heights asked for by a page of the block list that starts at the
/// height written in `height`; nothing where `height` is no number of 64
/// bits.
pub open spec fn requested_heights(height: Seq<char>) -> Option<Seq<u64>> {
    match number_of(height) {
        Some(top) => if top <= u64::MAX {
            Some(list_heights(top as u64))
        } else {
            None
        },
        None => None,
    }
}

/// The ten heights of the page of the block list that `height` names.
pub fn block_list_heights(height: &str) -> (heights: Option<Vec<u64>>)
    ensures
        match heights {
            Some(list) => requested_heights(height@) == Some(list@),
            None => requested_heights(height@) is None,
        },
{
    match parse_number(height) {
        Some(top) => Some(recent_heights(top)),
        None => None,
    }
}

/// A page of the block list, seen at `now`: takes the node's status and
/// the answers for the heights of `block_list_heights`, writes the height
/// of the tip to `latest_height` and appends the records of the answers
/// to `blocks`. Without a status nothing is written.
pub fn block_list_by_height_at(
    status: &Fetch<StatusReply>,
    replies: &Vec<Fetch<BlockReply>>,
    now: i64,
    blocks: &mut Vec<Block>,
    latest_height: &mut u64,
) -> (outcome: Outcome)
    ensures
        outcome == lookup_outcome(*status),
        outcome != Outcome::Updated ==> *final(blocks) == *old(blocks) && *final(latest_height)
            == *old(latest_height),
        outcome == Outcome::Updated ==> *final(latest_height) == status->Reply_0.height
            && blocks_of(final(blocks)@) == blocks_of(old(blocks)@) + listed_blocks(replies@, now),
{
    match status {
        Fetch::Reply(found) => {
            *latest_height = found.height;
            let mut listed = list_blocks(replies, now);
            blocks.append(&mut listed);
            Outcome::Updated
        },
        Fetch::Empty => Outcome::Skipped(Skip::NothingReported),
        Fetch::Failed(error) => Outcome::Failed(Failure::Call(*error)),
    }
}

/// A page of the block list, the ages taken at the time of the call.
pub fn get_block_list_by_height(
    status: &Fetch<StatusReply>,
    replies: &Vec<Fetch<BlockReply>>,
    blocks: &mut Vec<Block>,
    latest_height: &mut u64,
) -> (outcome: Outcome)
    ensures
        outcome == lookup_outcome(*status),
        outcome != Outcome::Updated ==> *final(blocks) == *old(blocks) && *final(latest_height)
            == *old(latest_height),
        outcome == Outcome::Updated ==> *final(latest_height) == status->Reply_0.height
            && exists|now: i64|
            blocks_of(final(blocks)@) == blocks_of(old(blocks)@) + #[trigger] listed_blocks(
                replies@,
                now,
            ),
{
    let now = now_seconds();
    block_list_by_height_at(status, replies, now, blocks, latest_height)
}

/// Where a walk over the unspent outputs stands.
#[derive(Debug, Clone, Copy, PartialEq, Eq, Structural)]
pub enum WalkState {
    /// The next page is to be asked for.
    Running,
    /// The last output was counted.
    Done,
    /// A page could not be had, or the count left 64 bits.
    Failed(Failure),
}

/// A walk over the node's unspent outputs, page by page.
#[derive(Debug, Clone, Copy, PartialEq, Eq, Structural)]
pub struct OutputWalk {
    /// MMR index at which the next page starts.
    pub next: u64,
    /// Outputs counted so far.
    pub count: u64,
    /// Whether to go on.
    pub state: WalkState,
}

/// The walk after one page. A page adds its outputs to the count. The
/// walk ends with a page that holds no output, that reaches the highest
/// index, or that does not lead past where it began; otherwise the next
/// page starts behind the page's last output. An answer with nothing in
/// it ends the walk, and a failed call fails it.
pub open spec fn walk_step(walk: OutputWalk, page: Fetch<OutputsPage>) -> OutputWalk {
    match walk.state {
        WalkState::Running => match page {
            Fetch::Failed(error) => OutputWalk {
                state: WalkState::Failed(Failure::Call(error)),
                ..walk
            },
            Fetch::Empty => OutputWalk { state: WalkState::Done, ..walk },
            Fetch::Reply(found) => if walk.count + found.outputs > u64::MAX {
                OutputWalk { state: WalkState::Failed(Failure::Overflow), ..walk }
            } else {
                let count = (walk.count + found.outputs) as u64;
                match found.last_index {
                    None => OutputWalk { count, state: WalkState::Done, ..walk },
                    Some(last) => if last >= found.highest_index || last < walk.next {
                        OutputWalk { count, state: WalkState::Done, ..walk }
                    } else {
                        OutputWalk { next: (last + 1) as u64, count, state: WalkState::Running }
                    },
                }
            },
        },
        _ => walk,
    }
}

impl OutputWalk {
    /// A walk that starts at the first MMR index with nothing counted.
    pub fn new() -> (walk: OutputWalk)
        ensures
            walk == (OutputWalk { next: 1, count: 0, state: WalkState::Running }),
    {
        OutputWalk { next: 1, count: 0, state: WalkState::Running }
    }

    /// The index from which the next page is asked, while the walk runs.
    pub fn request(&self) -> (start: Option<u64>)
        ensures
            start == if self.state == WalkState::Running {
                Some(self.next)
            } else {
                None
            },
    {
        match self.state {
            WalkState::Running => Some(self.next),
            _ => None,
        }
    }

    /// Takes the page that was asked for. A walk that goes on starts its
    /// next page behind the one before, so that it cannot turn in place.
    pub fn advance(&mut self, page: &Fetch<OutputsPage>)
        ensures
            *final(self) == walk_step(*old(self), *page),
            final(self).state == WalkState::Running ==> old(self).state == WalkState::Running
                && final(self).next > old(self).next,
            final(self).count >= old(self).count,
    {
        match self.state {
            WalkState::Running => {
                match page {
                    Fetch::Failed(error) => {
                        self.state = WalkState::Failed(Failure::Call(*error));
                    },
                    Fetch::Empty => {
                        self.state = WalkState::Done;
                    },
                    Fetch::Reply(found) => {
                        match self.count.checked_add(found.outputs) {
                            None => {
                                self.state = WalkState::Failed(Failure::Overflow);
                            },
                            Some(count) => {
                                self.count = count;
                                match found.last_index {
                                    None => {
                                        self.state = WalkState::Done;
                                    },
                                    Some(last) => {
                                        if last >= found.highest_index || last < self.next {
                                            self.state = WalkState::Done;
                                        } else {
                                            self.next = last + 1;
                                        }
                                    },
                                }
                            },
                        }
                    },
                }
            },
            _ => {},
        }
    }
}

/// What the collector of unspent outputs makes of a walk.
pub open spec fn walk_outcome(walk: OutputWalk) -> Outcome {
    match walk.state {
        WalkState::Done => Outcome::Updated,
        WalkState::Running => Outcome::Skipped(Skip::NothingReported),
        WalkState::Failed(failure) => Outcome::Failed(failure),
    }
}

/// Unspent outputs: writes the count of a walk that has ended. A walk
/// that failed, or has not ended, writes nothing.
pub fn get_unspent_outputs(dashboard: &mut Dashboard, walk: &OutputWalk) -> (outcome: Outcome)
    ensures
        outcome == walk_outcome(*walk),
        outcome != Outcome::Updated ==> *final(dashboard) == *old(dashboard),
        outcome == Outcome::Updated ==> final(dashboard)@ == (DashboardView {
            utxo_count: Some(walk.count),
            ..old(dashboard)@
        }),
{
    match walk.state {
        WalkState::Done => {
            dashboard.utxo_count = Some(walk.count);
            Outcome::Updated
        },
        WalkState::Running => Outcome::Skipped(Skip::NothingReported),
        WalkState::Failed(failure) => Outcome::Failed(failure),
    }
}

} // verus!
