//! The node's JSON-RPC interface as the explorer sees it: which calls it
//! makes, on which endpoint and with which secret, and the answers as
//! plain values.

use vstd::prelude::*;
use vstd::string::*;
use crate::data::{
    kernels_of, outputs_of, text_of, texts_of, ExplorerConfig, KernelEntry, KernelEntryView,
    OutputEntry, OutputEntryView,
};
use crate::text::{decimal, push_decimal};

verus! {

/// The two credential tiers of the node's API.
#[derive(Debug, Clone, Copy, PartialEq, Eq, Structural)]
pub enum Scope {
    /// The privileged tier.
    Owner,
    /// The public tier.
    Foreign,
}

/// Why a call brought no answer.
#[derive(Debug, Clone, Copy, PartialEq, Eq, Structural)]
pub enum RpcError {
    /// The endpoint was not reached in time.
    Unreachable,
    /// The body was no JSON, or not of the expected shape.
    Malformed,
}

/// What a call brought back.
#[derive(Debug, Clone, PartialEq, Eq)]
pub enum Fetch<T> {
    /// The answer.
    Reply(T),
    /// The node answered, with nothing in it.
    Empty,
    /// The call failed.
    Failed(RpcError),
}

/// Seconds after which a call is given up.
pub const CALL_TIMEOUT: u64 = 10;

/// Where the price feed is asked for price and volume in dollars and in
/// bitcoin.
pub const PRICE_FEED: &'static str =
    "https://api.coingecko.com/api/v3/simple/price?ids=grin&vs_currencies=usd%2Cbtc&include_24hr_vol=true";

/// One call to make: where to post, what, and under which credentials.
#[derive(Debug, Clone, PartialEq, Eq)]
pub struct RpcCall {
    /// The endpoint.
    pub url: String,
    /// The JSON-RPC envelope.
    pub body: String,
    /// User and secret for basic authentication; `None` for an endpoint
    /// that takes none.
    pub auth: Option<(String, String)>,
    /// Seconds to wait for the answer.
    pub timeout: u64,
}

/// An `RpcCall` as plain values.
pub struct RpcCallView {
    pub url: Seq<char>,
    pub body: Seq<char>,
    pub auth: Option<(Seq<char>, Seq<char>)>,
    pub timeout: u64,
}

impl View for RpcCall {
    type V = RpcCallView;

    open spec fn view(&self) -> RpcCallView {
        RpcCallView {
            url: self.url@,
            body: self.body@,
            auth: match self.auth {
                Some((user, secret)) => Some((user@, secret@)),
                None => None,
            },
            timeout: self.timeout,
        }
    }
}

/// The path segment of a scope.
pub open spec fn scope_text(scope: Scope) -> Seq<char> {
    match scope {
        Scope::Owner => "owner"@,
        Scope::Foreign => "foreign"@,
    }
}

/// The node's endpoint for a scope: scheme, host, the port where one is
/// set, and the scope's path.
pub open spec fn endpoint_text(
    proto: Seq<char>,
    host: Seq<char>,
    port: Seq<char>,
    scope: Scope,
) -> Seq<char> {
    proto + "://"@ + host + (if port.len() == 0 {
        Seq::<char>::empty()
    } else {
        ":"@ + port
    }) + "/v2/"@ + scope_text(scope)
}

/// The JSON-RPC 2.0 envelope of a call.
pub open spec fn envelope_text(method: Seq<char>, params: Seq<char>, id: Seq<char>) -> Seq<char> {
    "{\"method\": \""@ + method + "\", \"params\": "@ + params + ", \"id\": "@ + id
        + ", \"jsonrpc\": \"2.0\"}"@
}

/// The secret that goes with a scope.
pub open spec fn secret_text(config: &ExplorerConfig, scope: Scope) -> Seq<char> {
    match scope {
        Scope::Owner => config.api_secret@,
        Scope::Foreign => config.foreign_api_secret@,
    }
}

/// The envelope of a call as a string.
pub fn envelope(method: &str, params: &str, id: &str) -> (body: String)
    ensures
        body@ == envelope_text(method@, params@, id@),
{
    let mut body = String::from_str("{\"method\": \"");
    body.append(method);
    body.append("\", \"params\": ");
    body.append(params);
    body.append(", \"id\": ");
    body.append(id);
    body.append(", \"jsonrpc\": \"2.0\"}");
    body
}

/// The node's endpoint for a scope.
pub fn endpoint(config: &ExplorerConfig, scope: Scope) -> (url: String)
    ensures
        url@ == endpoint_text(config.proto@, config.host@, config.port@, scope),
{
    let mut url = config.proto.clone();
    url.append("://");
    url.append(config.host.as_str());
    if config.port.as_str().unicode_len() > 0 {
        url.append(":");
        url.append(config.port.as_str());
    }
    url.append("/v2/");
    match scope {
        Scope::Owner => url.append("owner"),
        Scope::Foreign => url.append("foreign"),
    }
    url
}

/// The call of `method` on the configured node: posted to the scope's
/// endpoint, authenticated with the scope's secret, given up after ten
/// seconds.
pub fn call(config: &ExplorerConfig, method: &str, params: &str, id: &str, scope: Scope) -> (request:
    RpcCall)
    ensures
        request@ == (RpcCallView {
            url: endpoint_text(config.proto@, config.host@, config.port@, scope),
            body: envelope_text(method@, params@, id@),
            auth: Some((config.user@, secret_text(config, scope))),
            timeout: 10,
        }),
{
    let secret = match scope {
        Scope::Owner => config.api_secret.clone(),
        Scope::Foreign => config.foreign_api_secret.clone(),
    };
    RpcCall {
        url: endpoint(config, scope),
        body: envelope(method, params, id),
        auth: Some((config.user.clone(), secret)),
        timeout: CALL_TIMEOUT,
    }
}

/// The same call against another node, which takes no credentials: posted
/// to `endpoint` followed by the scope's path.
pub fn call_external(method: &str, params: &str, id: &str, scope: Scope, endpoint: &str) -> (request:
    RpcCall)
    ensures
        request@ == (RpcCallView {
            url: endpoint@ + "/v2/"@ + scope_text(scope),
            body: envelope_text(method@, params@, id@),
            auth: None,
            timeout: 10,
        }),
{
    let mut url = String::from_str(endpoint);
    url.append("/v2/");
    match scope {
        Scope::Owner => url.append("owner"),
        Scope::Foreign => url.append("foreign"),
    }
    RpcCall { url, body: envelope(method, params, id), auth: None, timeout: CALL_TIMEOUT }
}

/// Parameters of `get_block` by height.
pub open spec fn block_params_text(height: u64) -> Seq<char> {
    "["@ + decimal(height as nat) + ", null, null]"@
}

/// Parameters of `get_header` by hash.
pub open spec fn header_params_text(hash: Seq<char>) -> Seq<char> {
    "[null, \""@ + hash + "\", null]"@
}

/// Parameters of `get_kernel` by excess.
pub open spec fn kernel_params_text(excess: Seq<char>) -> Seq<char> {
    "[\""@ + excess + "\", null, null]"@
}

/// Parameters of `get_outputs` for one commitment.
pub open spec fn output_params_text(commit: Seq<char>) -> Seq<char> {
    "[[\""@ + commit + "\"], null, null, true, true]"@
}

/// Parameters of `get_blocks`: a range of heights, at most `max` blocks,
/// without proofs.
pub open spec fn blocks_params_text(start: u64, end: u64, max: u64) -> Seq<char> {
    "["@ + decimal(start as nat) + ", "@ + decimal(end as nat) + ", "@ + decimal(max as nat)
        + ", false]"@
}

/// Parameters of `get_unspent_outputs`: from an MMR index to an optional
/// last one, at most `max` outputs, without proofs.
pub open spec fn unspent_params_text(start: u64, end: Option<u64>, max: u64) -> Seq<char> {
    "["@ + decimal(start as nat) + ", "@ + (match end {
        Some(last) => decimal(last as nat),
        None => "null"@,
    }) + ", "@ + decimal(max as nat) + ", false]"@
}

/// Parameters of `get_block` for the block at `height`.
pub fn block_params(height: u64) -> (params: String)
    ensures
        params@ == block_params_text(height),
{
    let mut params = String::from_str("[");
    push_decimal(&mut params, height as u128);
    params.append(", null, null]");
    params
}

/// Parameters of `get_header` for the block with the given hash.
pub fn header_params(hash: &str) -> (params: String)
    ensures
        params@ == header_params_text(hash@),
{
    let mut params = String::from_str("[null, \"");
    params.append(hash);
    params.append("\", null]");
    params
}

/// Parameters of `get_kernel` for the kernel with the given excess.
pub fn kernel_params(excess: &str) -> (params: String)
    ensures
        params@ == kernel_params_text(excess@),
{
    let mut params = String::from_str("[\"");
    params.append(excess);
    params.append("\", null, null]");
    params
}

/// Parameters of `get_outputs` for the output with the given commitment.
pub fn output_params(commit: &str) -> (params: String)
    ensures
        params@ == output_params_text(commit@),
{
    let mut params = String::from_str("[[\"");
    params.append(commit);
    params.append("\"], null, null, true, true]");
    params
}

/// Parameters of `get_blocks` for the heights from `start` to `end`.
pub fn blocks_params(start: u64, end: u64, max: u64) -> (params: String)
    ensures
        params@ == blocks_params_text(start, end, max),
{
    let mut params = String::from_str("[");
    push_decimal(&mut params, start as u128);
    params.append(", ");
    push_decimal(&mut params, end as u128);
    params.append(", ");
    push_decimal(&mut params, max as u128);
    params.append(", false]");
    params
}

/// Parameters of `get_unspent_outputs` from the MMR index `start`.
pub fn unspent_params(start: u64, end: Option<u64>, max: u64) -> (params: String)
    ensures
        params@ == unspent_params_text(start, end, max),
{
    let mut params = String::from_str("[");
    push_decimal(&mut params, start as u128);
    params.append(", ");
    match end {
        Some(last) => push_decimal(&mut params, last as u128),
        None => params.append("null"),
    }
    params.append(", ");
    push_decimal(&mut params, max as u128);
    params.append(", false]");
    params
}

/// The call of `method` with the parameters `params` as the explorer
/// makes it on its node: under the id 1.
pub open spec fn node_call(
    config: &ExplorerConfig,
    method: Seq<char>,
    params: Seq<char>,
    scope: Scope,
) -> RpcCallView {
    RpcCallView {
        url: endpoint_text(config.proto@, config.host@, config.port@, scope),
        body: envelope_text(method, params, "1"@),
        auth: Some((config.user@, secret_text(config, scope))),
        timeout: 10,
    }
}

/// The call that asks the node for its status: `get_status`, privileged.
pub fn status_request(config: &ExplorerConfig) -> (request: RpcCall)
    ensures
        request@ == node_call(config, "get_status"@, "[]"@, Scope::Owner),
{
    call(config, "get_status", "[]", "1", Scope::Owner)
}

/// The call that asks for the size of the pool: `get_pool_size`, public.
pub fn pool_request(config: &ExplorerConfig) -> (request: RpcCall)
    ensures
        request@ == node_call(config, "get_pool_size"@, "[]"@, Scope::Foreign),
{
    call(config, "get_pool_size", "[]", "1", Scope::Foreign)
}

/// The call that asks for the size of the stem pool:
/// `get_stempool_size`, public.
pub fn stempool_request(config: &ExplorerConfig) -> (request: RpcCall)
    ensures
        request@ == node_call(config, "get_stempool_size"@, "[]"@, Scope::Foreign),
{
    call(config, "get_stempool_size", "[]", "1", Scope::Foreign)
}

/// The call that asks the node for its peers: `get_connected_peers`,
/// privileged.
pub fn peers_request(config: &ExplorerConfig) -> (request: RpcCall)
    ensures
        request@ == node_call(config, "get_connected_peers"@, "[]"@, Scope::Owner),
{
    call(config, "get_connected_peers", "[]", "1", Scope::Owner)
}

/// The call that asks another node for its peers: `get_connected_peers`
/// on that node's privileged path, without credentials.
pub fn external_peers_request(endpoint: &str) -> (request: RpcCall)
    ensures
        request@ == (RpcCallView {
            url: endpoint@ + "/v2/"@ + scope_text(Scope::Owner),
            body: envelope_text("get_connected_peers"@, "[]"@, "1"@),
            auth: None,
            timeout: 10,
        }),
{
    call_external("get_connected_peers", "[]", "1", Scope::Owner, endpoint)
}

/// The call that asks for the block at `height`: `get_block`, public.
pub fn block_request(config: &ExplorerConfig, height: u64) -> (request: RpcCall)
    ensures
        request@ == node_call(config, "get_block"@, block_params_text(height), Scope::Foreign),
{
    let params = block_params(height);
    call(config, "get_block", params.as_str(), "1", Scope::Foreign)
}

/// The call that asks for the header with the hash `hash`: `get_header`,
/// public.
pub fn header_request(config: &ExplorerConfig, hash: &str) -> (request: RpcCall)
    ensures
        request@ == node_call(config, "get_header"@, header_params_text(hash@), Scope::Foreign),
{
    let params = header_params(hash);
    call(config, "get_header", params.as_str(), "1", Scope::Foreign)
}

/// The call that asks for the kernel with the excess `excess`:
/// `get_kernel`, public.
pub fn kernel_request(config: &ExplorerConfig, excess: &str) -> (request: RpcCall)
    ensures
        request@ == node_call(config, "get_kernel"@, kernel_params_text(excess@), Scope::Foreign),
{
    let params = kernel_params(excess);
    call(config, "get_kernel", params.as_str(), "1", Scope::Foreign)
}

/// The call that asks for the unspent output with the commitment
/// `commit`: `get_outputs`, public.
pub fn output_request(config: &ExplorerConfig, commit: &str) -> (request: RpcCall)
    ensures
        request@ == node_call(config, "get_outputs"@, output_params_text(commit@), Scope::Foreign),
{
    let params = output_params(commit);
    call(config, "get_outputs", params.as_str(), "1", Scope::Foreign)
}

/// Blocks asked for in one call of `get_blocks`: the node gives no more
/// than 1000.
pub const BLOCKS_PER_CALL: u64 = 720;

/// The call that asks for the blocks from `start` to `end`, 720 at most:
/// `get_blocks`, public.
pub fn blocks_request(config: &ExplorerConfig, start: u64, end: u64) -> (request: RpcCall)
    ensures
        request@ == node_call(
            config,
            "get_blocks"@,
            blocks_params_text(start, end, 720),
            Scope::Foreign,
        ),
{
    let params = blocks_params(start, end, BLOCKS_PER_CALL);
    call(config, "get_blocks", params.as_str(), "1", Scope::Foreign)
}

/// Outputs asked for in one page of the walk over the unspent outputs.
pub const PAGE_SIZE: u64 = 10000;

/// The call that asks for a page of unspent outputs from the MMR index
/// `start` on, 10000 at most: `get_unspent_outputs`, public.
pub fn unspent_request(config: &ExplorerConfig, start: u64) -> (request: RpcCall)
    ensures
        request@ == node_call(
            config,
            "get_unspent_outputs"@,
            unspent_params_text(start, None, 10000),
            Scope::Foreign,
        ),
{
    let params = unspent_params(start, None, PAGE_SIZE);
    call(config, "get_unspent_outputs", params.as_str(), "1", Scope::Foreign)
}

/// The answer to `get_status`.
#[derive(Debug, Clone, PartialEq, Eq)]
pub struct StatusReply {
    /// Height of the tip.
    pub height: u64,
    /// Sync state.
    pub sync_status: String,
    /// The node's name and version.
    pub user_agent: String,
    /// Protocol version.
    pub protocol_version: u64,
    /// Chain identity, which older nodes do not report.
    pub chain: Option<String>,
}

/// A `StatusReply` as plain values.
pub struct StatusReplyView {
    pub height: u64,
    pub sync_status: Seq<char>,
    pub user_agent: Seq<char>,
    pub protocol_version: u64,
    pub chain: Option<Seq<char>>,
}

impl View for StatusReply {
    type V = StatusReplyView;

    open spec fn view(&self) -> StatusReplyView {
        StatusReplyView {
            height: self.height,
            sync_status: self.sync_status@,
            user_agent: self.user_agent@,
            protocol_version: self.protocol_version,
            chain: text_of(self.chain),
        }
    }
}

/// One connected peer.
#[derive(Debug, Clone, PartialEq, Eq)]
pub struct PeerReply {
    /// `Inbound` or `Outbound`.
    pub direction: String,
    /// The peer's name and version.
    pub user_agent: String,
}

/// A `PeerReply` as plain values.
pub struct PeerReplyView {
    pub direction: Seq<char>,
    pub user_agent: Seq<char>,
}

impl View for PeerReply {
    type V = PeerReplyView;

    open spec fn view(&self) -> PeerReplyView {
        PeerReplyView { direction: self.direction@, user_agent: self.user_agent@ }
    }
}

/// The peers of a sequence as plain values.
pub open spec fn peers_of(v: Seq<PeerReply>) -> Seq<PeerReplyView> {
    Seq::new(v.len(), |i: int| v[i]@)
}

/// Price and volume as the feed quotes them.
#[derive(Debug, Clone, Copy, PartialEq, Eq, Structural)]
pub struct PriceQuote {
    /// Price in thousandths of a dollar.
    pub usd: u64,
    /// Price in hundred-millionths of a bitcoin.
    pub btc: u64,
    /// Volume of a day in whole dollars.
    pub usd_24h_vol: u64,
    /// Volume of a day in hundredths of a bitcoin.
    pub btc_24h_vol: u64,
}

/// What the price feed brought in one cycle.
#[derive(Debug, Clone, PartialEq, Eq)]
pub enum MarketFeed {
    /// The feed is switched off, or not due in this cycle.
    NotAsked,
    /// A quote.
    Quote(PriceQuote),
    /// The feed answered with an error of its own.
    Refused(String),
    /// The feed was not reached, or its answer not understood.
    Failed(RpcError),
}

/// A `MarketFeed` as plain values.
pub enum MarketFeedView {
    NotAsked,
    Quote(PriceQuote),
    Refused(Seq<char>),
    Failed(RpcError),
}

impl View for MarketFeed {
    type V = MarketFeedView;

    open spec fn view(&self) -> MarketFeedView {
        match self {
            MarketFeed::NotAsked => MarketFeedView::NotAsked,
            MarketFeed::Quote(quote) => MarketFeedView::Quote(*quote),
            MarketFeed::Refused(message) => MarketFeedView::Refused(message@),
            MarketFeed::Failed(error) => MarketFeedView::Failed(*error),
        }
    }
}

/// A block as `get_block` and `get_blocks` give it.
#[derive(Debug, Clone, PartialEq, Eq)]
pub struct BlockReply {
    /// Hash of the header.
    pub hash: String,
    /// Height.
    pub height: u64,
    /// Timestamp of the header in RFC 3339 form.
    pub timestamp: String,
    /// Header version.
    pub version: u64,
    /// Total difficulty up to this block.
    pub total_difficulty: u64,
    /// Size of the kernel MMR with this block.
    pub kernel_mmr_size: u64,
    /// The kernels.
    pub kernels: Vec<KernelEntry>,
    /// The input commitments.
    pub inputs: Vec<String>,
    /// The outputs.
    pub outputs: Vec<OutputEntry>,
    /// The answer as it came, for display.
    pub raw: String,
}

/// A `BlockReply` as plain values.
pub struct BlockReplyView {
    pub hash: Seq<char>,
    pub height: u64,
    pub timestamp: Seq<char>,
    pub version: u64,
    pub total_difficulty: u64,
    pub kernel_mmr_size: u64,
    pub kernels: Seq<KernelEntryView>,
    pub inputs: Seq<Seq<char>>,
    pub outputs: Seq<OutputEntryView>,
    pub raw: Seq<char>,
}

impl View for BlockReply {
    type V = BlockReplyView;

    open spec fn view(&self) -> BlockReplyView {
        BlockReplyView {
            hash: self.hash@,
            height: self.height,
            timestamp: self.timestamp@,
            version: self.version,
            total_difficulty: self.total_difficulty,
            kernel_mmr_size: self.kernel_mmr_size,
            kernels: kernels_of(self.kernels@),
            inputs: texts_of(self.inputs@),
            outputs: outputs_of(self.outputs@),
            raw: self.raw@,
        }
    }
}

/// A kernel as `get_kernel` gives it.
#[derive(Debug, Clone, PartialEq, Eq)]
pub struct KernelReply {
    /// Height of the block that holds the kernel.
    pub height: u64,
    /// The kernel.
    pub kernel: KernelEntry,
    /// The answer as it came, for display.
    pub raw: String,
}

/// A `KernelReply` as plain values.
pub struct KernelReplyView {
    pub height: u64,
    pub kernel: KernelEntryView,
    pub raw: Seq<char>,
}

impl View for KernelReply {
    type V = KernelReplyView;

    open spec fn view(&self) -> KernelReplyView {
        KernelReplyView { height: self.height, kernel: self.kernel@, raw: self.raw@ }
    }
}

/// An output as `get_outputs` gives it.
#[derive(Debug, Clone, PartialEq, Eq)]
pub struct OutputReply {
    /// Height of the block that holds the output.
    pub height: u64,
    /// The output.
    pub output: OutputEntry,
    /// The answer as it came, for display.
    pub raw: String,
}

/// An `OutputReply` as plain values.
pub struct OutputReplyView {
    pub height: u64,
    pub output: OutputEntryView,
    pub raw: Seq<char>,
}

impl View for OutputReply {
    type V = OutputReplyView;

    open spec fn view(&self) -> OutputReplyView {
        OutputReplyView { height: self.height, output: self.output@, raw: self.raw@ }
    }
}

/// The blocks of a sequence as plain values.
pub open spec fn block_replies_of(v: Seq<BlockReply>) -> Seq<BlockReplyView> {
    Seq::new(v.len(), |i: int| v[i]@)
}

/// One page of `get_unspent_outputs`.
#[derive(Debug, Clone, Copy, PartialEq, Eq, Structural)]
pub struct OutputsPage {
    /// The highest MMR index that holds an output.
    pub highest_index: u64,
    /// MMR index of the last output of the page; `None` for an empty page.
    pub last_index: Option<u64>,
    /// Number of outputs on the page.
    pub outputs: u64,
}

} // verus!
