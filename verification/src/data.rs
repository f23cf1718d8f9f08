//! The shared state: the dashboard snapshot, block records, the
//! transaction summary, the daily statistics series and the configuration.

use vstd::prelude::*;

verus! {

/// The text of an optional string; nothing where it is unset.
pub open spec fn text_of(s: Option<String>) -> Option<Seq<char>> {
    match s {
        Some(t) => Some(t@),
        None => None,
    }
}

/// The texts of a sequence of strings.
pub open spec fn texts_of(v: Seq<String>) -> Seq<Seq<char>> {
    Seq::new(v.len(), |i: int| v[i]@)
}

/// The latest known values of every metric family. A numeric field is
/// `None`, and a text field empty, until its collector has succeeded once;
/// after that it holds what was collected last.
#[derive(Debug, Clone, PartialEq, Eq)]
pub struct Dashboard {
    /// Height of the chain tip.
    pub height: Option<u64>,
    /// Sync state as the node names it.
    pub sync: String,
    /// Node version.
    pub node_ver: String,
    /// Protocol version.
    pub proto_ver: Option<u64>,
    /// Chain identity.
    pub chain: String,
    /// Size of the kernel MMR at the tip.
    pub kernel_mmr_size: Option<u64>,
    /// Inbound peers of the local node.
    pub inbound: u64,
    /// Outbound peers of the local node.
    pub outbound: u64,
    /// Coins in circulation.
    pub supply: Option<u128>,
    /// Supply in hundredths of a percent of the soft cap.
    pub soft_supply: Option<u128>,
    /// Yearly inflation in hundredths of a percent.
    pub inflation: Option<u128>,
    /// Price in thousandths of a dollar.
    pub price_usd: Option<u64>,
    /// Price in hundred-millionths of a bitcoin.
    pub price_btc: Option<u64>,
    /// Volume of a day in whole dollars.
    pub volume_usd: Option<u64>,
    /// Volume of a day in hundredths of a bitcoin.
    pub volume_btc: Option<u64>,
    /// Market capitalisation in whole dollars.
    pub cap_usd: Option<u128>,
    /// Market capitalisation in whole bitcoins.
    pub cap_btc: Option<u128>,
    /// Chain data on disk in hundredths of a gigabyte.
    pub disk_usage: Option<u128>,
    /// Graph rate in hundredths of a graph per second.
    pub hashrate: Option<u128>,
    /// Graph rate in hundredths of a thousand graphs per second.
    pub hashrate_kgs: Option<u128>,
    /// Network difficulty.
    pub difficulty: Option<u64>,
    /// Production cost of a coin in thousandths of a dollar.
    pub production_cost: Option<u128>,
    /// Price over production cost in hundredths.
    pub reward_ratio: Option<u128>,
    /// Break-even power price in hundredths of a dollar per kWh.
    pub breakeven_cost: Option<u128>,
    /// Transactions in the pool.
    pub txns: Option<u64>,
    /// Transactions in the stem pool.
    pub stem: Option<u64>,
    /// Unspent outputs.
    pub utxo_count: Option<u64>,
}

/// A `Dashboard` as plain values.
pub struct DashboardView {
    pub height: Option<u64>,
    pub sync: Seq<char>,
    pub node_ver: Seq<char>,
    pub proto_ver: Option<u64>,
    pub chain: Seq<char>,
    pub kernel_mmr_size: Option<u64>,
    pub inbound: u64,
    pub outbound: u64,
    pub supply: Option<u128>,
    pub soft_supply: Option<u128>,
    pub inflation: Option<u128>,
    pub price_usd: Option<u64>,
    pub price_btc: Option<u64>,
    pub volume_usd: Option<u64>,
    pub volume_btc: Option<u64>,
    pub cap_usd: Option<u128>,
    pub cap_btc: Option<u128>,
    pub disk_usage: Option<u128>,
    pub hashrate: Option<u128>,
    pub hashrate_kgs: Option<u128>,
    pub difficulty: Option<u64>,
    pub production_cost: Option<u128>,
    pub reward_ratio: Option<u128>,
    pub breakeven_cost: Option<u128>,
    pub txns: Option<u64>,
    pub stem: Option<u64>,
    pub utxo_count: Option<u64>,
}

impl View for Dashboard {
    type V = DashboardView;

    open spec fn view(&self) -> DashboardView {
        DashboardView {
            height: self.height,
            sync: self.sync@,
            node_ver: self.node_ver@,
            proto_ver: self.proto_ver,
            chain: self.chain@,
            kernel_mmr_size: self.kernel_mmr_size,
            inbound: self.inbound,
            outbound: self.outbound,
            supply: self.supply,
            soft_supply: self.soft_supply,
            inflation: self.inflation,
            price_usd: self.price_usd,
            price_btc: self.price_btc,
            volume_usd: self.volume_usd,
            volume_btc: self.volume_btc,
            cap_usd: self.cap_usd,
            cap_btc: self.cap_btc,
            disk_usage: self.disk_usage,
            hashrate: self.hashrate,
            hashrate_kgs: self.hashrate_kgs,
            difficulty: self.difficulty,
            production_cost: self.production_cost,
            reward_ratio: self.reward_ratio,
            breakeven_cost: self.breakeven_cost,
            txns: self.txns,
            stem: self.stem,
            utxo_count: self.utxo_count,
        }
    }
}

/// The dashboard before anything was collected.
pub open spec fn empty_dashboard() -> DashboardView {
    DashboardView {
        height: None,
        sync: Seq::empty(),
        node_ver: Seq::empty(),
        proto_ver: None,
        chain: Seq::empty(),
        kernel_mmr_size: None,
        inbound: 0,
        outbound: 0,
        supply: None,
        soft_supply: None,
        inflation: None,
        price_usd: None,
        price_btc: None,
        volume_usd: None,
        volume_btc: None,
        cap_usd: None,
        cap_btc: None,
        disk_usage: None,
        hashrate: None,
        hashrate_kgs: None,
        difficulty: None,
        production_cost: None,
        reward_ratio: None,
        breakeven_cost: None,
        txns: None,
        stem: None,
        utxo_count: None,
    }
}

impl Dashboard {
    /// A dashboard with every field unset.
    pub fn new() -> (dashboard: Dashboard)
        ensures
            dashboard@ == empty_dashboard(),
    {
        Dashboard {
            height: None,
            sync: String::new(),
            node_ver: String::new(),
            proto_ver: None,
            chain: String::new(),
            kernel_mmr_size: None,
            inbound: 0,
            outbound: 0,
            supply: None,
            soft_supply: None,
            inflation: None,
            price_usd: None,
            price_btc: None,
            volume_usd: None,
            volume_btc: None,
            cap_usd: None,
            cap_btc: None,
            disk_usage: None,
            hashrate: None,
            hashrate_kgs: None,
            difficulty: None,
            production_cost: None,
            reward_ratio: None,
            breakeven_cost: None,
            txns: None,
            stem: None,
            utxo_count: None,
        }
    }
}

/// One kernel of a block.
#[derive(Debug, Clone, PartialEq, Eq)]
pub struct KernelEntry {
    /// The kernel's excess commitment.
    pub excess: String,
    /// Its kind, `Plain` or `Coinbase` among others.
    pub features: String,
    /// Its fee in fee units.
    pub fee: u64,
}

/// A `KernelEntry` as plain values.
pub struct KernelEntryView {
    pub excess: Seq<char>,
    pub features: Seq<char>,
    pub fee: u64,
}

impl View for KernelEntry {
    type V = KernelEntryView;

    open spec fn view(&self) -> KernelEntryView {
        KernelEntryView { excess: self.excess@, features: self.features@, fee: self.fee }
    }
}

/// One output of a block.
#[derive(Debug, Clone, PartialEq, Eq)]
pub struct OutputEntry {
    /// The output's commitment.
    pub commit: String,
    /// Its kind, `Transaction` or `Coinbase`.
    pub output_type: String,
}

/// An `OutputEntry` as plain values.
pub struct OutputEntryView {
    pub commit: Seq<char>,
    pub output_type: Seq<char>,
}

impl View for OutputEntry {
    type V = OutputEntryView;

    open spec fn view(&self) -> OutputEntryView {
        OutputEntryView { commit: self.commit@, output_type: self.output_type@ }
    }
}

/// The kernels of a sequence as plain values.
pub open spec fn kernels_of(v: Seq<KernelEntry>) -> Seq<KernelEntryView> {
    Seq::new(v.len(), |i: int| v[i]@)
}

/// The outputs of a sequence as plain values.
pub open spec fn outputs_of(v: Seq<OutputEntry>) -> Seq<OutputEntryView> {
    Seq::new(v.len(), |i: int| v[i]@)
}

/// A block as the explorer shows it.
#[derive(Debug, Clone, PartialEq, Eq)]
pub struct Block {
    /// Hash of the block header.
    pub hash: String,
    /// Height; `None` while no block was read into the record.
    pub height: Option<u64>,
    /// Age of the block in words, or its timestamp in a detail record.
    pub time: String,
    /// Header version.
    pub version: Option<u64>,
    /// Weight in hundredths of a percent of the maximum block weight.
    pub weight: u128,
    /// Serialized size in bytes.
    pub size: u128,
    /// Sum of the kernel fees in fee units.
    pub fees: u128,
    /// The kernels, filled in a detail record.
    pub kernels: Vec<KernelEntry>,
    /// The input commitments, filled in a detail record.
    pub inputs: Vec<String>,
    /// The outputs, filled in a detail record.
    pub outputs: Vec<OutputEntry>,
    /// Number of kernels.
    pub ker_len: u64,
    /// Number of inputs.
    pub in_len: u64,
    /// Number of outputs.
    pub out_len: u64,
    /// The node's answer as it came.
    pub raw_data: String,
}

/// A `Block` as plain values.
pub struct BlockView {
    pub hash: Seq<char>,
    pub height: Option<u64>,
    pub time: Seq<char>,
    pub version: Option<u64>,
    pub weight: u128,
    pub size: u128,
    pub fees: u128,
    pub kernels: Seq<KernelEntryView>,
    pub inputs: Seq<Seq<char>>,
    pub outputs: Seq<OutputEntryView>,
    pub ker_len: u64,
    pub in_len: u64,
    pub out_len: u64,
    pub raw_data: Seq<char>,
}

impl View for Block {
    type V = BlockView;

    open spec fn view(&self) -> BlockView {
        BlockView {
            hash: self.hash@,
            height: self.height,
            time: self.time@,
            version: self.version,
            weight: self.weight,
            size: self.size,
            fees: self.fees,
            kernels: kernels_of(self.kernels@),
            inputs: texts_of(self.inputs@),
            outputs: outputs_of(self.outputs@),
            ker_len: self.ker_len,
            in_len: self.in_len,
            out_len: self.out_len,
            raw_data: self.raw_data@,
        }
    }
}

/// The record of no block.
pub open spec fn empty_block() -> BlockView {
    BlockView {
        hash: Seq::empty(),
        height: None,
        time: Seq::empty(),
        version: None,
        weight: 0,
        size: 0,
        fees: 0,
        kernels: Seq::empty(),
        inputs: Seq::empty(),
        outputs: Seq::empty(),
        ker_len: 0,
        in_len: 0,
        out_len: 0,
        raw_data: Seq::empty(),
    }
}

impl Block {
    /// An empty block record.
    pub fn new() -> (block: Block)
        ensures
            block@ == empty_block(),
    {
        let block = Block {
            hash: String::new(),
            height: None,
            time: String::new(),
            version: None,
            weight: 0,
            size: 0,
            fees: 0,
            kernels: Vec::new(),
            inputs: Vec::new(),
            outputs: Vec::new(),
            ker_len: 0,
            in_len: 0,
            out_len: 0,
            raw_data: String::new(),
        };
        assert(block@.kernels =~= Seq::empty());
        assert(block@.inputs =~= Seq::empty());
        assert(block@.outputs =~= Seq::empty());
        block
    }
}

/// A kernel looked up by its excess.
#[derive(Debug, Clone, PartialEq, Eq)]
pub struct Kernel {
    /// Height of the block that holds it; `None` while not found.
    pub height: Option<u64>,
    /// The excess commitment.
    pub excess: String,
    /// Its kind.
    pub ker_type: String,
    /// Its fee in fee units.
    pub fee: u64,
    /// Where it was found.
    pub status: String,
    /// The node's answer as it came.
    pub raw_data: String,
}

/// A `Kernel` as plain values.
pub struct KernelView {
    pub height: Option<u64>,
    pub excess: Seq<char>,
    pub ker_type: Seq<char>,
    pub fee: u64,
    pub status: Seq<char>,
    pub raw_data: Seq<char>,
}

impl View for Kernel {
    type V = KernelView;

    open spec fn view(&self) -> KernelView {
        KernelView {
            height: self.height,
            excess: self.excess@,
            ker_type: self.ker_type@,
            fee: self.fee,
            status: self.status@,
            raw_data: self.raw_data@,
        }
    }
}

impl Kernel {
    /// An empty kernel record.
    pub fn new() -> (kernel: Kernel)
        ensures
            kernel@ == (KernelView {
                height: None,
                excess: Seq::empty(),
                ker_type: Seq::empty(),
                fee: 0,
                status: Seq::empty(),
                raw_data: Seq::empty(),
            }),
    {
        Kernel {
            height: None,
            excess: String::new(),
            ker_type: String::new(),
            fee: 0,
            status: String::new(),
            raw_data: String::new(),
        }
    }
}

/// An output looked up by its commitment.
#[derive(Debug, Clone, PartialEq, Eq)]
pub struct Output {
    /// Height of the block that holds it; `None` while not found.
    pub height: Option<u64>,
    /// The commitment.
    pub commit: String,
    /// Its kind.
    pub out_type: String,
    /// Where it was found.
    pub status: String,
    /// The node's answer as it came.
    pub raw_data: String,
}

/// An `Output` as plain values.
pub struct OutputView {
    pub height: Option<u64>,
    pub commit: Seq<char>,
    pub out_type: Seq<char>,
    pub status: Seq<char>,
    pub raw_data: Seq<char>,
}

impl View for Output {
    type V = OutputView;

    open spec fn view(&self) -> OutputView {
        OutputView {
            height: self.height,
            commit: self.commit@,
            out_type: self.out_type@,
            status: self.status@,
            raw_data: self.raw_data@,
        }
    }
}

impl Output {
    /// An empty output record.
    pub fn new() -> (output: Output)
        ensures
            output@ == (OutputView {
                height: None,
                commit: Seq::empty(),
                out_type: Seq::empty(),
                status: Seq::empty(),
                raw_data: Seq::empty(),
            }),
    {
        Output {
            height: None,
            commit: String::new(),
            out_type: String::new(),
            status: String::new(),
            raw_data: String::new(),
        }
    }
}

/// Throughput over the last hour and the last day, coinbase kernels left
/// out. A field is `None` until the collector has succeeded once.
#[derive(Debug, Clone, Copy, PartialEq, Eq, Structural)]
pub struct Transactions {
    /// Kernels of the last hour.
    pub period_1h: Option<u64>,
    /// Kernels of the last day.
    pub period_24h: Option<u64>,
    /// Fees of the last hour in fee units.
    pub fees_1h: Option<u64>,
    /// Fees of the last day in fee units.
    pub fees_24h: Option<u64>,
}

impl Transactions {
    /// A summary with nothing collected.
    pub fn new() -> (transactions: Transactions)
        ensures
            transactions == (Transactions {
                period_1h: None,
                period_24h: None,
                fees_1h: None,
                fees_24h: None,
            }),
    {
        Transactions { period_1h: None, period_24h: None, fees_1h: None, fees_24h: None }
    }
}

/// What the explorer is configured with.
#[derive(Debug, Clone, PartialEq, Eq)]
pub struct ExplorerConfig {
    /// Host of the node.
    pub host: String,
    /// Port of the node; empty where the address has none.
    pub port: String,
    /// Scheme of the node's address.
    pub proto: String,
    /// User of the node's API.
    pub user: String,
    /// File that holds the owner secret.
    pub api_secret_path: String,
    /// File that holds the foreign secret.
    pub foreign_api_secret_path: String,
    /// Directory of the chain data.
    pub grin_dir: String,
    /// The owner secret.
    pub api_secret: String,
    /// The foreign secret.
    pub foreign_api_secret: String,
    /// `enabled` where the price feed is asked.
    pub coingecko_api: String,
    /// `enabled` where the node's API is passed on to the public.
    pub public_api: String,
    /// Endpoints of other nodes whose peers are counted too.
    pub external_nodes: Vec<String>,
    /// File of the statistics database; empty where none is kept.
    pub database: String,
}

/// An `ExplorerConfig` as plain values.
pub struct ExplorerConfigView {
    pub host: Seq<char>,
    pub port: Seq<char>,
    pub proto: Seq<char>,
    pub user: Seq<char>,
    pub api_secret_path: Seq<char>,
    pub foreign_api_secret_path: Seq<char>,
    pub grin_dir: Seq<char>,
    pub api_secret: Seq<char>,
    pub foreign_api_secret: Seq<char>,
    pub coingecko_api: Seq<char>,
    pub public_api: Seq<char>,
    pub external_nodes: Seq<Seq<char>>,
    pub database: Seq<char>,
}

impl View for ExplorerConfig {
    type V = ExplorerConfigView;

    open spec fn view(&self) -> ExplorerConfigView {
        ExplorerConfigView {
            host: self.host@,
            port: self.port@,
            proto: self.proto@,
            user: self.user@,
            api_secret_path: self.api_secret_path@,
            foreign_api_secret_path: self.foreign_api_secret_path@,
            grin_dir: self.grin_dir@,
            api_secret: self.api_secret@,
            foreign_api_secret: self.foreign_api_secret@,
            coingecko_api: self.coingecko_api@,
            public_api: self.public_api@,
            external_nodes: texts_of(self.external_nodes@),
            database: self.database@,
        }
    }
}

impl ExplorerConfig {
    /// A configuration with every setting empty.
    pub fn new() -> (config: ExplorerConfig)
        ensures
            config@ == (ExplorerConfigView {
                host: Seq::empty(),
                port: Seq::empty(),
                proto: Seq::empty(),
                user: Seq::empty(),
                api_secret_path: Seq::empty(),
                foreign_api_secret_path: Seq::empty(),
                grin_dir: Seq::empty(),
                api_secret: Seq::empty(),
                foreign_api_secret: Seq::empty(),
                coingecko_api: Seq::empty(),
                public_api: Seq::empty(),
                external_nodes: Seq::empty(),
                database: Seq::empty(),
            }),
    {
        let config = ExplorerConfig {
            host: String::new(),
            port: String::new(),
            proto: String::new(),
            user: String::new(),
            api_secret_path: String::new(),
            foreign_api_secret_path: String::new(),
            grin_dir: String::new(),
            api_secret: String::new(),
            foreign_api_secret: String::new(),
            coingecko_api: String::new(),
            public_api: String::new(),
            external_nodes: Vec::new(),
            database: String::new(),
        };
        assert(config@.external_nodes =~= Seq::empty());
        config
    }
}

} // verus!
