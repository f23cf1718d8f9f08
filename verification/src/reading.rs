//! The answers of the node read out of their JSON documents: where each
//! value stands, and what it takes for an answer to be understood.

use vstd::prelude::*;
use vstd::string::*;
use serde_json::Value;
use crate::data::{
    kernels_of, outputs_of, texts_of, KernelEntry, KernelEntryView, OutputEntry,
    OutputEntryView,
};
use crate::decimal::{decimal_reading, parse_decimal};
use crate::json::{
    is_present, is_there, json_leaves, json_pretty, leaf_at, length_at, number_at, present_at,
    pretty_text, read_length, read_number, read_text, text_at, Doc, Leaf, LeafView,
};
use crate::rpc::{
    block_replies_of, peers_of, BlockReply, BlockReplyView, Fetch, KernelReply, KernelReplyView,
    MarketFeed, MarketFeedView, OutputReply, OutputReplyView, OutputsPage, PeerReply, PeerReplyView,
    PriceQuote, RpcError, StatusReply, StatusReplyView,
};
use crate::text::{decimal, pow10, power_of_ten, push_decimal};

verus! {

/// Where the node puts the answer of a call that went well.
pub open spec fn answer_root() -> Seq<char> {
    "/result/Ok"@
}

/// The pointer to the item `index` of the array at `list`.
pub open spec fn item_pointer(list: Seq<char>, index: int) -> Seq<char> {
    list + "/"@ + decimal(index as nat)
}

/// What a document amounts to: nothing where the node put no answer in
/// it, the answer where it can be read, and a failure where it cannot.
pub open spec fn framed<T>(doc: Doc, reply: Option<T>) -> Fetch<T> {
    if !present_at(doc, answer_root()) {
        Fetch::Empty
    } else {
        match reply {
            Some(found) => Fetch::Reply(found),
            None => Fetch::Failed(RpcError::Malformed),
        }
    }
}

/// An optional reply as plain values.
pub open spec fn option_view<T: View>(reply: Option<T>) -> Option<T::V> {
    match reply {
        Some(found) => Some(found@),
        None => None,
    }
}

/// What was fetched as plain values.
pub open spec fn fetch_view<T: View>(fetched: Fetch<T>) -> Fetch<T::V> {
    match fetched {
        Fetch::Reply(found) => Fetch::Reply(found@),
        Fetch::Empty => Fetch::Empty,
        Fetch::Failed(error) => Fetch::Failed(error),
    }
}

/// The pointer to the field `name` below `base`.
fn field(base: &str, name: &str) -> (pointer: String)
    ensures
        pointer@ == base@ + name@,
{
    let mut pointer = String::from_str(base);
    pointer.append(name);
    pointer
}

/// The pointer to an item of an array.
fn item(list: &str, index: usize) -> (pointer: String)
    ensures
        pointer@ == item_pointer(list@, index as int),
{
    let mut pointer = String::from_str(list);
    pointer.append("/");
    push_decimal(&mut pointer, index as u128);
    pointer
}

/// The status that a document holds.
pub open spec fn status_at(doc: Doc) -> Option<StatusReplyView> {
    if number_at(doc, "/result/Ok/tip/height"@) is Some && text_at(
        doc,
        "/result/Ok/sync_status"@,
    ) is Some && text_at(doc, "/result/Ok/user_agent"@) is Some && number_at(
        doc,
        "/result/Ok/protocol_version"@,
    ) is Some {
        Some(
            StatusReplyView {
                height: number_at(doc, "/result/Ok/tip/height"@)->0,
                sync_status: text_at(doc, "/result/Ok/sync_status"@)->0,
                user_agent: text_at(doc, "/result/Ok/user_agent"@)->0,
                protocol_version: number_at(doc, "/result/Ok/protocol_version"@)->0,
                chain: text_at(doc, "/result/Ok/chain"@),
            },
        )
    } else {
        None
    }
}

/// Reads the answer to `get_status`. The chain may be missing; the other
/// fields may not.
pub fn read_status(value: &Value) -> (status: Fetch<StatusReply>)
    ensures
        fetch_view(status) == framed(json_leaves(*value), status_at(json_leaves(*value))),
{
    if !is_present(value, "/result/Ok") {
        return Fetch::Empty;
    }
    let height = match read_number(value, "/result/Ok/tip/height") {
        Some(n) => n,
        None => {
            return Fetch::Failed(RpcError::Malformed);
        },
    };
    let sync_status = match read_text(value, "/result/Ok/sync_status") {
        Some(s) => s,
        None => {
            return Fetch::Failed(RpcError::Malformed);
        },
    };
    let user_agent = match read_text(value, "/result/Ok/user_agent") {
        Some(s) => s,
        None => {
            return Fetch::Failed(RpcError::Malformed);
        },
    };
    let protocol_version = match read_number(value, "/result/Ok/protocol_version") {
        Some(n) => n,
        None => {
            return Fetch::Failed(RpcError::Malformed);
        },
    };
    let chain = read_text(value, "/result/Ok/chain");
    Fetch::Reply(StatusReply { height, sync_status, user_agent, protocol_version, chain })
}

/// The number that a document holds as its whole answer.
pub open spec fn size_at(doc: Doc) -> Option<u64> {
    number_at(doc, answer_root())
}

/// Reads an answer that is one number, as the sizes of the pools are.
pub fn read_size(value: &Value) -> (size: Fetch<u64>)
    ensures
        size == framed(json_leaves(*value), size_at(json_leaves(*value))),
{
    if !is_present(value, "/result/Ok") {
        return Fetch::Empty;
    }
    match read_number(value, "/result/Ok") {
        Some(n) => Fetch::Reply(n),
        None => Fetch::Failed(RpcError::Malformed),
    }
}

/// The height that a header holds.
pub open spec fn height_at(doc: Doc) -> Option<u64> {
    number_at(doc, "/result/Ok/height"@)
}

/// Reads the height out of the answer to `get_header`.
pub fn read_height(value: &Value) -> (height: Fetch<u64>)
    ensures
        height == framed(json_leaves(*value), height_at(json_leaves(*value))),
{
    if !is_present(value, "/result/Ok") {
        return Fetch::Empty;
    }
    match read_number(value, "/result/Ok/height") {
        Some(n) => Fetch::Reply(n),
        None => Fetch::Failed(RpcError::Malformed),
    }
}

/// The kernel of a block that stands at `at`.
pub open spec fn kernel_at(doc: Doc, at: Seq<char>) -> Option<KernelEntryView> {
    if text_at(doc, at + "/excess"@) is Some && text_at(doc, at + "/features"@) is Some
        && number_at(doc, at + "/fee"@) is Some {
        Some(
            KernelEntryView {
                excess: text_at(doc, at + "/excess"@)->0,
                features: text_at(doc, at + "/features"@)->0,
                fee: number_at(doc, at + "/fee"@)->0,
            },
        )
    } else {
        None
    }
}

/// Reads the kernel at `at`.
fn read_kernel_entry(value: &Value, at: &str) -> (kernel: Option<KernelEntry>)
    ensures
        option_view(kernel) == kernel_at(json_leaves(*value), at@),
{
    let excess = match read_text(value, field(at, "/excess").as_str()) {
        Some(s) => s,
        None => {
            return None;
        },
    };
    let features = match read_text(value, field(at, "/features").as_str()) {
        Some(s) => s,
        None => {
            return None;
        },
    };
    let fee = match read_number(value, field(at, "/fee").as_str()) {
        Some(n) => n,
        None => {
            return None;
        },
    };
    Some(KernelEntry { excess, features, fee })
}

/// The kernels of the array at `list`, where every one can be read.
pub open spec fn kernels_at(doc: Doc, list: Seq<char>) -> Option<Seq<KernelEntryView>> {
    match length_at(doc, list) {
        Some(n) => if forall|i: int|
            0 <= i < n ==> (#[trigger] kernel_at(doc, item_pointer(list, i))) is Some {
            Some(Seq::new(n as nat, |i: int| kernel_at(doc, item_pointer(list, i))->0))
        } else {
            None
        },
        None => None,
    }
}

/// Reads the kernels of the array at `list`.
fn read_kernels(value: &Value, list: &str) -> (kernels: Option<Vec<KernelEntry>>)
    ensures
        match kernels {
            Some(found) => kernels_at(json_leaves(*value), list@) == Some(kernels_of(found@)),
            None => kernels_at(json_leaves(*value), list@) is None,
        },
{
    let ghost doc = json_leaves(*value);
    let n = match read_length(value, list) {
        Some(n) => n,
        None => {
            return None;
        },
    };
    let mut found: Vec<KernelEntry> = Vec::new();
    let mut i: usize = 0;
    while i < n
        invariant
            i <= n,
            doc == json_leaves(*value),
            length_at(doc, list@) == Some(n),
            found@.len() == i,
            forall|k: int|
                0 <= k < i ==> (#[trigger] kernel_at(doc, item_pointer(list@, k))) == Some(
                    found@[k]@,
                ),
        decreases n - i,
    {
        match read_kernel_entry(value, item(list, i).as_str()) {
            Some(kernel) => {
                found.push(kernel);
            },
            None => {
                return None;
            },
        }
        i = i + 1;
    }
    Some(found)
}

/// The output of a block that stands at `at`.
pub open spec fn output_at(doc: Doc, at: Seq<char>) -> Option<OutputEntryView> {
    if text_at(doc, at + "/commit"@) is Some && text_at(doc, at + "/output_type"@) is Some {
        Some(
            OutputEntryView {
                commit: text_at(doc, at + "/commit"@)->0,
                output_type: text_at(doc, at + "/output_type"@)->0,
            },
        )
    } else {
        None
    }
}

/// Reads the output at `at`.
fn read_output_entry(value: &Value, at: &str) -> (output: Option<OutputEntry>)
    ensures
        option_view(output) == output_at(json_leaves(*value), at@),
{
    let commit = match read_text(value, field(at, "/commit").as_str()) {
        Some(s) => s,
        None => {
            return None;
        },
    };
    let output_type = match read_text(value, field(at, "/output_type").as_str()) {
        Some(s) => s,
        None => {
            return None;
        },
    };
    Some(OutputEntry { commit, output_type })
}

/// The outputs of the array at `list`, where every one can be read.
pub open spec fn outputs_at(doc: Doc, list: Seq<char>) -> Option<Seq<OutputEntryView>> {
    match length_at(doc, list) {
        Some(n) => if forall|i: int|
            0 <= i < n ==> (#[trigger] output_at(doc, item_pointer(list, i))) is Some {
            Some(Seq::new(n as nat, |i: int| output_at(doc, item_pointer(list, i))->0))
        } else {
            None
        },
        None => None,
    }
}

/// Reads the outputs of the array at `list`.
fn read_outputs(value: &Value, list: &str) -> (outputs: Option<Vec<OutputEntry>>)
    ensures
        match outputs {
            Some(found) => outputs_at(json_leaves(*value), list@) == Some(outputs_of(found@)),
            None => outputs_at(json_leaves(*value), list@) is None,
        },
{
    let ghost doc = json_leaves(*value);
    let n = match read_length(value, list) {
        Some(n) => n,
        None => {
            return None;
        },
    };
    let mut found: Vec<OutputEntry> = Vec::new();
    let mut i: usize = 0;
    while i < n
        invariant
            i <= n,
            doc == json_leaves(*value),
            length_at(doc, list@) == Some(n),
            found@.len() == i,
            forall|k: int|
                0 <= k < i ==> (#[trigger] output_at(doc, item_pointer(list@, k))) == Some(
                    found@[k]@,
                ),
        decreases n - i,
    {
        match read_output_entry(value, item(list, i).as_str()) {
            Some(output) => {
                found.push(output);
            },
            None => {
                return None;
            },
        }
        i = i + 1;
    }
    Some(found)
}

/// The strings of the array at `list`, where every item is a string.
pub open spec fn texts_at(doc: Doc, list: Seq<char>) -> Option<Seq<Seq<char>>> {
    match length_at(doc, list) {
        Some(n) => if forall|i: int|
            0 <= i < n ==> (#[trigger] text_at(doc, item_pointer(list, i))) is Some {
            Some(Seq::new(n as nat, |i: int| text_at(doc, item_pointer(list, i))->0))
        } else {
            None
        },
        None => None,
    }
}

/// Reads the strings of the array at `list`.
fn read_texts(value: &Value, list: &str) -> (texts: Option<Vec<String>>)
    ensures
        match texts {
            Some(found) => texts_at(json_leaves(*value), list@) == Some(texts_of(found@)),
            None => texts_at(json_leaves(*value), list@) is None,
        },
{
    let ghost doc = json_leaves(*value);
    let n = match read_length(value, list) {
        Some(n) => n,
        None => {
            return None;
        },
    };
    let mut found: Vec<String> = Vec::new();
    let mut i: usize = 0;
    while i < n
        invariant
            i <= n,
            doc == json_leaves(*value),
            length_at(doc, list@) == Some(n),
            found@.len() == i,
            forall|k: int|
                0 <= k < i ==> (#[trigger] text_at(doc, item_pointer(list@, k))) == Some(
                    found@[k]@,
                ),
        decreases n - i,
    {
        match read_text(value, item(list, i).as_str()) {
            Some(text) => {
                found.push(text);
            },
            None => {
                return None;
            },
        }
        i = i + 1;
    }
    Some(found)
}

/// The block that stands at `base`, with `raw` for the text of the
/// answer.
pub open spec fn block_at(doc: Doc, base: Seq<char>, raw: Seq<char>) -> Option<BlockReplyView> {
    if text_at(doc, base + "/header/hash"@) is Some && number_at(doc, base + "/header/height"@)
        is Some && text_at(doc, base + "/header/timestamp"@) is Some && number_at(
        doc,
        base + "/header/version"@,
    ) is Some && number_at(doc, base + "/header/total_difficulty"@) is Some && number_at(
        doc,
        base + "/header/kernel_mmr_size"@,
    ) is Some && kernels_at(doc, base + "/kernels"@) is Some && texts_at(doc, base + "/inputs"@)
        is Some && outputs_at(doc, base + "/outputs"@) is Some {
        Some(
            BlockReplyView {
                hash: text_at(doc, base + "/header/hash"@)->0,
                height: number_at(doc, base + "/header/height"@)->0,
                timestamp: text_at(doc, base + "/header/timestamp"@)->0,
                version: number_at(doc, base + "/header/version"@)->0,
                total_difficulty: number_at(doc, base + "/header/total_difficulty"@)->0,
                kernel_mmr_size: number_at(doc, base + "/header/kernel_mmr_size"@)->0,
                kernels: kernels_at(doc, base + "/kernels"@)->0,
                inputs: texts_at(doc, base + "/inputs"@)->0,
                outputs: outputs_at(doc, base + "/outputs"@)->0,
                raw,
            },
        )
    } else {
        None
    }
}

/// Reads the block at `base`.
fn read_block_at(value: &Value, base: &str, raw: String) -> (block: Option<BlockReply>)
    ensures
        option_view(block) == block_at(json_leaves(*value), base@, raw@),
{
    let hash = match read_text(value, field(base, "/header/hash").as_str()) {
        Some(s) => s,
        None => {
            return None;
        },
    };
    let height = match read_number(value, field(base, "/header/height").as_str()) {
        Some(n) => n,
        None => {
            return None;
        },
    };
    let timestamp = match read_text(value, field(base, "/header/timestamp").as_str()) {
        Some(s) => s,
        None => {
            return None;
        },
    };
    let version = match read_number(value, field(base, "/header/version").as_str()) {
        Some(n) => n,
        None => {
            return None;
        },
    };
    let total_difficulty = match read_number(
        value,
        field(base, "/header/total_difficulty").as_str(),
    ) {
        Some(n) => n,
        None => {
            return None;
        },
    };
    let kernel_mmr_size = match read_number(
        value,
        field(base, "/header/kernel_mmr_size").as_str(),
    ) {
        Some(n) => n,
        None => {
            return None;
        },
    };
    let kernels = match read_kernels(value, field(base, "/kernels").as_str()) {
        Some(v) => v,
        None => {
            return None;
        },
    };
    let inputs = match read_texts(value, field(base, "/inputs").as_str()) {
        Some(v) => v,
        None => {
            return None;
        },
    };
    let outputs = match read_outputs(value, field(base, "/outputs").as_str()) {
        Some(v) => v,
        None => {
            return None;
        },
    };
    Some(
        BlockReply {
            hash,
            height,
            timestamp,
            version,
            total_difficulty,
            kernel_mmr_size,
            kernels,
            inputs,
            outputs,
            raw,
        },
    )
}

/// Reads the answer to `get_block`: the block, with the document written
/// out for display.
pub fn read_block(value: &Value) -> (block: Fetch<BlockReply>)
    ensures
        fetch_view(block) == framed(
            json_leaves(*value),
            block_at(json_leaves(*value), answer_root(), json_pretty(*value)),
        ),
{
    if !is_present(value, "/result/Ok") {
        return Fetch::Empty;
    }
    match read_block_at(value, "/result/Ok", pretty_text(value)) {
        Some(found) => Fetch::Reply(found),
        None => Fetch::Failed(RpcError::Malformed),
    }
}

/// The blocks of the array at `list`, where every one can be read.
pub open spec fn blocks_at(doc: Doc, list: Seq<char>) -> Option<Seq<BlockReplyView>> {
    match length_at(doc, list) {
        Some(n) => if forall|i: int|
            0 <= i < n ==> (#[trigger] block_at(doc, item_pointer(list, i), Seq::empty()))
                is Some {
            Some(
                Seq::new(n as nat, |i: int| block_at(doc, item_pointer(list, i), Seq::empty())->0),
            )
        } else {
            None
        },
        None => None,
    }
}

/// What `read_blocks` gives for a document.
pub open spec fn blocks_fetched(doc: Doc) -> Fetch<Seq<BlockReplyView>> {
    framed(doc, blocks_at(doc, "/result/Ok/blocks"@))
}

/// Reads the answer to `get_blocks`: its blocks in their order.
pub fn read_blocks(value: &Value) -> (blocks: Fetch<Vec<BlockReply>>)
    ensures
        match blocks {
            Fetch::Reply(found) => blocks_fetched(json_leaves(*value)) == Fetch::Reply(
                block_replies_of(found@),
            ),
            Fetch::Empty => blocks_fetched(json_leaves(*value)) == Fetch::<
                Seq<BlockReplyView>,
            >::Empty,
            Fetch::Failed(error) => blocks_fetched(json_leaves(*value)) == Fetch::<
                Seq<BlockReplyView>,
            >::Failed(error),
        },
{
    let ghost doc = json_leaves(*value);
    if !is_present(value, "/result/Ok") {
        return Fetch::Empty;
    }
    let list = "/result/Ok/blocks";
    let n = match read_length(value, list) {
        Some(n) => n,
        None => {
            return Fetch::Failed(RpcError::Malformed);
        },
    };
    let mut found: Vec<BlockReply> = Vec::new();
    let mut i: usize = 0;
    while i < n
        invariant
            i <= n,
            doc == json_leaves(*value),
            list@ == "/result/Ok/blocks"@,
            present_at(doc, answer_root()),
            length_at(doc, list@) == Some(n),
            found@.len() == i,
            forall|k: int|
                0 <= k < i ==> (#[trigger] block_at(doc, item_pointer(list@, k), Seq::empty()))
                    == Some(found@[k]@),
        decreases n - i,
    {
        match read_block_at(value, item(list, i).as_str(), String::new()) {
            Some(block) => {
                found.push(block);
            },
            None => {
                return Fetch::Failed(RpcError::Malformed);
            },
        }
        i = i + 1;
    }
    assert(block_replies_of(found@) =~= Seq::new(
        n as nat,
        |i: int| block_at(doc, item_pointer(list@, i), Seq::empty())->0,
    ));
    Fetch::Reply(found)
}

/// The peer that stands at `at`.
pub open spec fn peer_at(doc: Doc, at: Seq<char>) -> Option<PeerReplyView> {
    if text_at(doc, at + "/direction"@) is Some && text_at(doc, at + "/user_agent"@) is Some {
        Some(
            PeerReplyView {
                direction: text_at(doc, at + "/direction"@)->0,
                user_agent: text_at(doc, at + "/user_agent"@)->0,
            },
        )
    } else {
        None
    }
}

/// Reads the peer at `at`.
fn read_peer(value: &Value, at: &str) -> (peer: Option<PeerReply>)
    ensures
        option_view(peer) == peer_at(json_leaves(*value), at@),
{
    let direction = match read_text(value, field(at, "/direction").as_str()) {
        Some(s) => s,
        None => {
            return None;
        },
    };
    let user_agent = match read_text(value, field(at, "/user_agent").as_str()) {
        Some(s) => s,
        None => {
            return None;
        },
    };
    Some(PeerReply { direction, user_agent })
}

/// The peers of the array at `list`, where every one can be read.
pub open spec fn peers_at(doc: Doc, list: Seq<char>) -> Option<Seq<PeerReplyView>> {
    match length_at(doc, list) {
        Some(n) => if forall|i: int|
            0 <= i < n ==> (#[trigger] peer_at(doc, item_pointer(list, i))) is Some {
            Some(Seq::new(n as nat, |i: int| peer_at(doc, item_pointer(list, i))->0))
        } else {
            None
        },
        None => None,
    }
}

/// What `read_peers` gives for a document.
pub open spec fn peers_fetched(doc: Doc) -> Fetch<Seq<PeerReplyView>> {
    framed(doc, peers_at(doc, answer_root()))
}

/// Reads the answer to `get_connected_peers`: the peers in their order.
pub fn read_peers(value: &Value) -> (peers: Fetch<Vec<PeerReply>>)
    ensures
        match peers {
            Fetch::Reply(found) => peers_fetched(json_leaves(*value)) == Fetch::Reply(
                peers_of(found@),
            ),
            Fetch::Empty => peers_fetched(json_leaves(*value)) == Fetch::<
                Seq<PeerReplyView>,
            >::Empty,
            Fetch::Failed(error) => peers_fetched(json_leaves(*value)) == Fetch::<
                Seq<PeerReplyView>,
            >::Failed(error),
        },
{
    let ghost doc = json_leaves(*value);
    if !is_present(value, "/result/Ok") {
        return Fetch::Empty;
    }
    let list = "/result/Ok";
    let n = match read_length(value, list) {
        Some(n) => n,
        None => {
            return Fetch::Failed(RpcError::Malformed);
        },
    };
    let mut found: Vec<PeerReply> = Vec::new();
    let mut i: usize = 0;
    while i < n
        invariant
            i <= n,
            doc == json_leaves(*value),
            list@ == answer_root(),
            length_at(doc, list@) == Some(n),
            found@.len() == i,
            forall|k: int|
                0 <= k < i ==> (#[trigger] peer_at(doc, item_pointer(list@, k))) == Some(
                    found@[k]@,
                ),
        decreases n - i,
    {
        match read_peer(value, item(list, i).as_str()) {
            Some(peer) => {
                found.push(peer);
            },
            None => {
                return Fetch::Failed(RpcError::Malformed);
            },
        }
        i = i + 1;
    }
    assert(peers_of(found@) =~= Seq::new(
        n as nat,
        |i: int| peer_at(doc, item_pointer(list@, i))->0,
    ));
    Fetch::Reply(found)
}

/// The kind and the fee of the kernel whose features stand at `at`: a
/// kind that stands as a string carries no fee, and a kind that stands
/// as an object carries the fee inside it.
pub open spec fn features_at(doc: Doc, at: Seq<char>) -> Option<(Seq<char>, u64)> {
    if text_at(doc, at) is Some {
        Some((text_at(doc, at)->0, 0u64))
    } else if number_at(doc, at + "/Plain/fee"@) is Some {
        Some(("Plain"@, number_at(doc, at + "/Plain/fee"@)->0))
    } else if number_at(doc, at + "/HeightLocked/fee"@) is Some {
        Some(("HeightLocked"@, number_at(doc, at + "/HeightLocked/fee"@)->0))
    } else if number_at(doc, at + "/NoRecentDuplicate/fee"@) is Some {
        Some(("NoRecentDuplicate"@, number_at(doc, at + "/NoRecentDuplicate/fee"@)->0))
    } else {
        None
    }
}

/// Reads the kind and the fee of a kernel.
fn read_features(value: &Value, at: &str) -> (features: Option<(String, u64)>)
    ensures
        match features {
            Some((kind, fee)) => features_at(json_leaves(*value), at@) == Some((kind@, fee)),
            None => features_at(json_leaves(*value), at@) is None,
        },
{
    match read_text(value, at) {
        Some(kind) => {
            return Some((kind, 0));
        },
        None => {},
    }
    match read_number(value, field(at, "/Plain/fee").as_str()) {
        Some(fee) => {
            return Some((String::from_str("Plain"), fee));
        },
        None => {},
    }
    match read_number(value, field(at, "/HeightLocked/fee").as_str()) {
        Some(fee) => {
            return Some((String::from_str("HeightLocked"), fee));
        },
        None => {},
    }
    match read_number(value, field(at, "/NoRecentDuplicate/fee").as_str()) {
        Some(fee) => Some((String::from_str("NoRecentDuplicate"), fee)),
        None => None,
    }
}

/// The kernel that a document holds with the height of its block.
pub open spec fn located_kernel_at(doc: Doc, raw: Seq<char>) -> Option<KernelReplyView> {
    match (
        number_at(doc, "/result/Ok/height"@),
        text_at(doc, "/result/Ok/tx_kernel/excess"@),
        features_at(doc, "/result/Ok/tx_kernel/features"@),
    ) {
        (Some(height), Some(excess), Some((features, fee))) => Some(
            KernelReplyView { height, kernel: KernelEntryView { excess, features, fee }, raw },
        ),
        _ => None,
    }
}

/// Reads the answer to `get_kernel`.
pub fn read_kernel(value: &Value) -> (kernel: Fetch<KernelReply>)
    ensures
        fetch_view(kernel) == framed(
            json_leaves(*value),
            located_kernel_at(json_leaves(*value), json_pretty(*value)),
        ),
{
    if !is_present(value, "/result/Ok") {
        return Fetch::Empty;
    }
    let height = match read_number(value, "/result/Ok/height") {
        Some(n) => n,
        None => {
            return Fetch::Failed(RpcError::Malformed);
        },
    };
    let excess = match read_text(value, "/result/Ok/tx_kernel/excess") {
        Some(s) => s,
        None => {
            return Fetch::Failed(RpcError::Malformed);
        },
    };
    let (features, fee) = match read_features(value, "/result/Ok/tx_kernel/features") {
        Some(found) => found,
        None => {
            return Fetch::Failed(RpcError::Malformed);
        },
    };
    Fetch::Reply(
        KernelReply { height, kernel: KernelEntry { excess, features, fee }, raw: pretty_text(value) },
    )
}

/// The first output that a document holds, with the height of its block.
pub open spec fn located_output_at(doc: Doc, raw: Seq<char>) -> Option<OutputReplyView> {
    if number_at(doc, "/result/Ok/0/block_height"@) is Some && output_at(doc, "/result/Ok/0"@)
        is Some {
        Some(
            OutputReplyView {
                height: number_at(doc, "/result/Ok/0/block_height"@)->0,
                output: output_at(doc, "/result/Ok/0"@)->0,
                raw,
            },
        )
    } else {
        None
    }
}

/// Reads the answer to `get_outputs` for one commitment.
pub fn read_output(value: &Value) -> (output: Fetch<OutputReply>)
    ensures
        fetch_view(output) == framed(
            json_leaves(*value),
            located_output_at(json_leaves(*value), json_pretty(*value)),
        ),
{
    if !is_present(value, "/result/Ok") {
        return Fetch::Empty;
    }
    let height = match read_number(value, "/result/Ok/0/block_height") {
        Some(n) => n,
        None => {
            return Fetch::Failed(RpcError::Malformed);
        },
    };
    let output = match read_output_entry(value, "/result/Ok/0") {
        Some(found) => found,
        None => {
            return Fetch::Failed(RpcError::Malformed);
        },
    };
    Fetch::Reply(OutputReply { height, output, raw: pretty_text(value) })
}

/// The page of unspent outputs that a document holds: the highest index,
/// the number of outputs, and the MMR index of the last of them.
pub open spec fn page_at(doc: Doc) -> Option<OutputsPage> {
    match (number_at(doc, "/result/Ok/highest_index"@), length_at(doc, "/result/Ok/outputs"@)) {
        (Some(highest_index), Some(n)) => if n == 0 {
            Some(OutputsPage { highest_index, last_index: None, outputs: 0 })
        } else {
            match number_at(
                doc,
                item_pointer("/result/Ok/outputs"@, n - 1) + "/mmr_index"@,
            ) {
                Some(last) => Some(
                    OutputsPage { highest_index, last_index: Some(last), outputs: n as u64 },
                ),
                None => None,
            }
        },
        _ => None,
    }
}

/// Reads one page of the answer to `get_unspent_outputs`.
pub fn read_outputs_page(value: &Value) -> (page: Fetch<OutputsPage>)
    ensures
        page == framed(json_leaves(*value), page_at(json_leaves(*value))),
{
    if !is_present(value, "/result/Ok") {
        return Fetch::Empty;
    }
    let highest_index = match read_number(value, "/result/Ok/highest_index") {
        Some(n) => n,
        None => {
            return Fetch::Failed(RpcError::Malformed);
        },
    };
    let n = match read_length(value, "/result/Ok/outputs") {
        Some(n) => n,
        None => {
            return Fetch::Failed(RpcError::Malformed);
        },
    };
    if n == 0 {
        return Fetch::Reply(OutputsPage { highest_index, last_index: None, outputs: 0 });
    }
    let last = item("/result/Ok/outputs", n - 1);
    match read_number(value, field(last.as_str(), "/mmr_index").as_str()) {
        Some(index) => Fetch::Reply(
            OutputsPage { highest_index, last_index: Some(index), outputs: n as u64 },
        ),
        None => Fetch::Failed(RpcError::Malformed),
    }
}

/// The amount at `pointer`, counted in units of ten to the minus
/// `places`, rounded half up or cut off: a whole number raised by so
/// many places, any other number read from its text. Nothing where no
/// number stands there or the amount does not fit in 64 bits.
pub open spec fn amount_at(doc: Doc, pointer: Seq<char>, places: nat, half_up: bool) -> Option<
    u64,
> {
    if doc.contains_key(pointer) {
        match doc[pointer] {
            LeafView::Number(n) => if n * pow10(places) <= u64::MAX {
                Some((n * pow10(places)) as u64)
            } else {
                None
            },
            LeafView::Decimal(text) => decimal_reading(text, places, half_up),
            _ => None,
        }
    } else {
        None
    }
}

/// Reads the amount at `pointer`.
pub fn read_amount(value: &Value, pointer: &str, places: u8, half_up: bool) -> (amount: Option<
    u64,
>)
    requires
        places <= 38,
    ensures
        amount == amount_at(json_leaves(*value), pointer@, places as nat, half_up),
{
    match leaf_at(value, pointer) {
        Some(Leaf::Number(n)) => {
            let factor = power_of_ten(places);
            match (n as u128).checked_mul(factor) {
                Some(raised) => {
                    if raised > u64::MAX as u128 {
                        None
                    } else {
                        Some(raised as u64)
                    }
                },
                None => None,
            }
        },
        Some(Leaf::Decimal(text)) => parse_decimal(text.as_str(), places, half_up),
        _ => None,
    }
}

/// The quote that a document of the price feed holds: the price in
/// thousandths of a dollar and in hundred-millionths of a bitcoin, the
/// volume in whole dollars, cut off, and in hundredths of a bitcoin.
pub open spec fn quote_at(doc: Doc) -> Option<PriceQuote> {
    match (
        amount_at(doc, "/grin/usd"@, 3, true),
        amount_at(doc, "/grin/btc"@, 8, true),
        amount_at(doc, "/grin/usd_24h_vol"@, 0, false),
        amount_at(doc, "/grin/btc_24h_vol"@, 2, true),
    ) {
        (Some(usd), Some(btc), Some(usd_24h_vol), Some(btc_24h_vol)) => Some(
            PriceQuote { usd, btc, usd_24h_vol, btc_24h_vol },
        ),
        _ => None,
    }
}

/// What a document of the price feed amounts to: a refusal where it
/// holds a status, with the message of the status, and else the quote
/// where one can be read.
pub open spec fn feed_at(doc: Doc) -> MarketFeedView {
    if doc.contains_key("/status"@) {
        MarketFeedView::Refused(
            match text_at(doc, "/status/error_message"@) {
                Some(message) => message,
                None => Seq::empty(),
            },
        )
    } else {
        match quote_at(doc) {
            Some(quote) => MarketFeedView::Quote(quote),
            None => MarketFeedView::Failed(RpcError::Malformed),
        }
    }
}

/// Reads the answer of the price feed.
pub fn read_quote(value: &Value) -> (feed: MarketFeed)
    ensures
        feed@ == feed_at(json_leaves(*value)),
{
    if is_there(value, "/status") {
        return MarketFeed::Refused(
            match read_text(value, "/status/error_message") {
                Some(message) => message,
                None => String::new(),
            },
        );
    }
    let usd = match read_amount(value, "/grin/usd", 3, true) {
        Some(n) => n,
        None => {
            return MarketFeed::Failed(RpcError::Malformed);
        },
    };
    let btc = match read_amount(value, "/grin/btc", 8, true) {
        Some(n) => n,
        None => {
            return MarketFeed::Failed(RpcError::Malformed);
        },
    };
    let usd_24h_vol = match read_amount(value, "/grin/usd_24h_vol", 0, false) {
        Some(n) => n,
        None => {
            return MarketFeed::Failed(RpcError::Malformed);
        },
    };
    let btc_24h_vol = match read_amount(value, "/grin/btc_24h_vol", 2, true) {
        Some(n) => n,
        None => {
            return MarketFeed::Failed(RpcError::Malformed);
        },
    };
    MarketFeed::Quote(PriceQuote { usd, btc, usd_24h_vol, btc_24h_vol })
}

} // verus!
