use grin_explorer::data::{KernelEntry, OutputEntry};
use grin_explorer::json::{is_present, read_length, read_number, read_text};
use grin_explorer::reading::{
    read_block, read_blocks, read_height, read_kernel, read_output, read_outputs_page,
    read_peers, read_size, read_status,
};
use grin_explorer::rpc::{Fetch, OutputsPage, PeerReply, RpcError, StatusReply};
use serde_json::Value;

fn reading_doc(text: &str) -> Value {
    serde_json::from_str(text).unwrap()
}

const READING_BLOCK: &str = r#"{
    "header": {
        "hash": "0001ab",
        "height": 77,
        "timestamp": "2015-05-15T00:00:00+00:00",
        "version": 5,
        "total_difficulty": 123456,
        "kernel_mmr_size": 154
    },
    "inputs": ["08a1", "08a2", "08a3"],
    "kernels": [
        {"excess": "09c1", "features": "Coinbase", "fee": 0},
        {"excess": "09c2", "features": "Plain", "fee": 23000000}
    ],
    "outputs": [
        {"commit": "08b1", "output_type": "Coinbase", "spent": false}
    ]
}"#;

#[test]
fn leaves_are_found_by_pointer() {
    let doc = reading_doc(r#"{"a": {"b": [10, "x", null, -1, 1.5, true, {"c": 7}]}, "n": null}"#);
    assert_eq!(read_number(&doc, "/a/b/0"), Some(10));
    assert_eq!(read_number(&doc, "/a/b/6/c"), Some(7));
    assert_eq!(read_number(&doc, "/a/b/1"), None);
    assert_eq!(read_number(&doc, "/a/b/3"), None);
    assert_eq!(read_number(&doc, "/a/b/4"), None);
    assert_eq!(read_number(&doc, "/a/b/7"), None);
    assert_eq!(read_number(&doc, "a/b/0"), None);
    assert_eq!(read_text(&doc, "/a/b/1"), Some(String::from("x")));
    assert_eq!(read_text(&doc, "/a/b/0"), None);
    assert_eq!(read_text(&doc, "/missing"), None);
    assert_eq!(read_length(&doc, "/a/b"), Some(7));
    assert_eq!(read_length(&doc, "/a"), None);
    assert!(is_present(&doc, "/a"));
    assert!(is_present(&doc, "/a/b/5"));
    assert!(is_present(&doc, ""));
    assert!(!is_present(&doc, "/n"));
    assert!(!is_present(&doc, "/a/b/2"));
    assert!(!is_present(&doc, "/zz"));
}

#[test]
fn a_status_is_read() {
    let doc = reading_doc(
        r#"{"id": 1, "jsonrpc": "2.0", "result": {"Ok": {
            "chain": "main", "protocol_version": 1000, "user_agent": "MW/Grin 5.3.0",
            "connections": 8, "sync_status": "no_sync",
            "tip": {"height": 1500, "total_difficulty": 99}}}}"#,
    );
    assert_eq!(
        read_status(&doc),
        Fetch::Reply(StatusReply {
            height: 1500,
            sync_status: String::from("no_sync"),
            user_agent: String::from("MW/Grin 5.3.0"),
            protocol_version: 1000,
            chain: Some(String::from("main")),
        })
    );
}

#[test]
fn a_status_may_lack_the_chain_and_nothing_else() {
    let without_chain = reading_doc(
        r#"{"result": {"Ok": {"protocol_version": 1000, "user_agent": "MW/Grin 4.0.0",
            "sync_status": "header_sync", "tip": {"height": 3}}}}"#,
    );
    match read_status(&without_chain) {
        Fetch::Reply(status) => {
            assert_eq!(status.chain, None);
            assert_eq!(status.height, 3);
            assert_eq!(status.sync_status, "header_sync");
        }
        other => panic!("unexpected {:?}", other),
    }
    let without_height = reading_doc(
        r#"{"result": {"Ok": {"protocol_version": 1000, "user_agent": "MW/Grin 4.0.0",
            "sync_status": "header_sync", "tip": {}}}}"#,
    );
    assert_eq!(read_status(&without_height), Fetch::Failed(RpcError::Malformed));
    let wrong_kind = reading_doc(
        r#"{"result": {"Ok": {"protocol_version": "1000", "user_agent": "MW/Grin 4.0.0",
            "sync_status": "header_sync", "tip": {"height": 3}}}}"#,
    );
    assert_eq!(read_status(&wrong_kind), Fetch::Failed(RpcError::Malformed));
}

#[test]
fn an_answer_without_ok_is_empty() {
    for text in [
        "null",
        "{}",
        r#"{"result": null}"#,
        r#"{"result": {"Ok": null}}"#,
        r#"{"result": {"Err": {"NotFound": "x"}}}"#,
        r#"{"error": {"code": -32601, "message": "Method not found"}}"#,
    ] {
        let doc = reading_doc(text);
        assert_eq!(read_status(&doc), Fetch::Empty);
        assert_eq!(read_block(&doc), Fetch::Empty);
        assert_eq!(read_blocks(&doc), Fetch::Empty);
        assert_eq!(read_peers(&doc), Fetch::Empty);
        assert_eq!(read_size(&doc), Fetch::Empty);
        assert_eq!(read_height(&doc), Fetch::Empty);
        assert_eq!(read_kernel(&doc), Fetch::Empty);
        assert_eq!(read_output(&doc), Fetch::Empty);
        assert_eq!(read_outputs_page(&doc), Fetch::Empty);
    }
}

#[test]
fn a_block_is_read_with_its_items() {
    let doc = reading_doc(&format!(r#"{{"result": {{"Ok": {}}}}}"#, READING_BLOCK));
    match read_block(&doc) {
        Fetch::Reply(block) => {
            assert_eq!(block.hash, "0001ab");
            assert_eq!(block.height, 77);
            assert_eq!(block.timestamp, "2015-05-15T00:00:00+00:00");
            assert_eq!(block.version, 5);
            assert_eq!(block.total_difficulty, 123456);
            assert_eq!(block.kernel_mmr_size, 154);
            assert_eq!(
                block.kernels,
                vec![
                    KernelEntry {
                        excess: String::from("09c1"),
                        features: String::from("Coinbase"),
                        fee: 0
                    },
                    KernelEntry {
                        excess: String::from("09c2"),
                        features: String::from("Plain"),
                        fee: 23000000
                    },
                ]
            );
            assert_eq!(block.inputs, vec!["08a1", "08a2", "08a3"]);
            assert_eq!(
                block.outputs,
                vec![OutputEntry {
                    commit: String::from("08b1"),
                    output_type: String::from("Coinbase")
                }]
            );
            assert_eq!(block.raw, serde_json::to_string_pretty(&doc).unwrap());
            assert!(block.raw.contains("\n"));
        }
        other => panic!("unexpected {:?}", other),
    }
}

#[test]
fn a_block_with_a_broken_item_is_not_understood() {
    let broken_kernel = READING_BLOCK.replace(r#""fee": 23000000"#, r#""fee": "much""#);
    let doc = reading_doc(&format!(r#"{{"result": {{"Ok": {}}}}}"#, broken_kernel));
    assert_eq!(read_block(&doc), Fetch::Failed(RpcError::Malformed));
    let broken_input = READING_BLOCK.replace(r#""08a2""#, "7");
    let doc = reading_doc(&format!(r#"{{"result": {{"Ok": {}}}}}"#, broken_input));
    assert_eq!(read_block(&doc), Fetch::Failed(RpcError::Malformed));
    let broken_output = READING_BLOCK.replace(r#""commit": "08b1","#, "");
    let doc = reading_doc(&format!(r#"{{"result": {{"Ok": {}}}}}"#, broken_output));
    assert_eq!(read_block(&doc), Fetch::Failed(RpcError::Malformed));
    let no_header = READING_BLOCK.replace(r#""hash": "0001ab","#, "");
    let doc = reading_doc(&format!(r#"{{"result": {{"Ok": {}}}}}"#, no_header));
    assert_eq!(read_block(&doc), Fetch::Failed(RpcError::Malformed));
    let no_list = READING_BLOCK.replace(r#""inputs": ["08a1", "08a2", "08a3"],"#, "");
    let doc = reading_doc(&format!(r#"{{"result": {{"Ok": {}}}}}"#, no_list));
    assert_eq!(read_block(&doc), Fetch::Failed(RpcError::Malformed));
}

#[test]
fn a_range_of_blocks_is_read_in_its_order() {
    let second = READING_BLOCK.replace(r#""height": 77"#, r#""height": 78"#);
    let doc = reading_doc(&format!(
        r#"{{"result": {{"Ok": {{"blocks": [{}, {}], "last_retrieved_height": 78}}}}}}"#,
        READING_BLOCK, second
    ));
    match read_blocks(&doc) {
        Fetch::Reply(blocks) => {
            assert_eq!(blocks.len(), 2);
            assert_eq!(blocks[0].height, 77);
            assert_eq!(blocks[1].height, 78);
            assert_eq!(blocks[1].kernels.len(), 2);
            assert_eq!(blocks[0].raw, "");
        }
        other => panic!("unexpected {:?}", other),
    }
    let none = reading_doc(r#"{"result": {"Ok": {"blocks": []}}}"#);
    assert_eq!(read_blocks(&none), Fetch::Reply(Vec::new()));
    let broken = reading_doc(&format!(
        r#"{{"result": {{"Ok": {{"blocks": [{}, {{}}]}}}}}}"#,
        READING_BLOCK
    ));
    assert_eq!(read_blocks(&broken), Fetch::Failed(RpcError::Malformed));
    let no_list = reading_doc(r#"{"result": {"Ok": {"blocks": 5}}}"#);
    assert_eq!(read_blocks(&no_list), Fetch::Failed(RpcError::Malformed));
}

#[test]
fn peers_are_read_in_their_order() {
    let doc = reading_doc(
        r#"{"result": {"Ok": [
            {"addr": "1.2.3.4:3414", "direction": "Outbound", "user_agent": "MW/Grin 5.3.0"},
            {"addr": "5.6.7.8:3414", "direction": "Inbound", "user_agent": "MW/Grin 5.2.0"}
        ]}}"#,
    );
    assert_eq!(
        read_peers(&doc),
        Fetch::Reply(vec![
            PeerReply {
                direction: String::from("Outbound"),
                user_agent: String::from("MW/Grin 5.3.0")
            },
            PeerReply {
                direction: String::from("Inbound"),
                user_agent: String::from("MW/Grin 5.2.0")
            },
        ])
    );
    assert_eq!(read_peers(&reading_doc(r#"{"result": {"Ok": []}}"#)), Fetch::Reply(Vec::new()));
    assert_eq!(
        read_peers(&reading_doc(r#"{"result": {"Ok": [{"direction": "Inbound"}]}}"#)),
        Fetch::Failed(RpcError::Malformed)
    );
    assert_eq!(
        read_peers(&reading_doc(r#"{"result": {"Ok": {"peers": []}}}"#)),
        Fetch::Failed(RpcError::Malformed)
    );
}

#[test]
fn sizes_and_heights_are_read() {
    assert_eq!(read_size(&reading_doc(r#"{"result": {"Ok": 12}}"#)), Fetch::Reply(12));
    assert_eq!(read_size(&reading_doc(r#"{"result": {"Ok": 0}}"#)), Fetch::Reply(0));
    assert_eq!(
        read_size(&reading_doc(r#"{"result": {"Ok": "12"}}"#)),
        Fetch::Failed(RpcError::Malformed)
    );
    assert_eq!(
        read_height(&reading_doc(r#"{"result": {"Ok": {"height": 42, "hash": "00"}}}"#)),
        Fetch::Reply(42)
    );
    assert_eq!(
        read_height(&reading_doc(r#"{"result": {"Ok": {"hash": "00"}}}"#)),
        Fetch::Failed(RpcError::Malformed)
    );
}

#[test]
fn a_kernel_is_read_with_its_kind_and_fee() {
    let plain = reading_doc(
        r#"{"result": {"Ok": {"height": 9, "mmr_index": 5, "tx_kernel": {
            "excess": "09c2", "excess_sig": "aa", "features": {"Plain": {"fee": 23000000}}}}}}"#,
    );
    match read_kernel(&plain) {
        Fetch::Reply(found) => {
            assert_eq!(found.height, 9);
            assert_eq!(found.kernel.excess, "09c2");
            assert_eq!(found.kernel.features, "Plain");
            assert_eq!(found.kernel.fee, 23000000);
            assert_eq!(found.raw, serde_json::to_string_pretty(&plain).unwrap());
        }
        other => panic!("unexpected {:?}", other),
    }
    let coinbase = reading_doc(
        r#"{"result": {"Ok": {"height": 9, "tx_kernel": {
            "excess": "09c1", "features": "Coinbase"}}}}"#,
    );
    match read_kernel(&coinbase) {
        Fetch::Reply(found) => {
            assert_eq!(found.kernel.features, "Coinbase");
            assert_eq!(found.kernel.fee, 0);
        }
        other => panic!("unexpected {:?}", other),
    }
    let locked = reading_doc(
        r#"{"result": {"Ok": {"height": 9, "tx_kernel": {
            "excess": "09c3", "features": {"HeightLocked": {"fee": 5, "lock_height": 10}}}}}}"#,
    );
    match read_kernel(&locked) {
        Fetch::Reply(found) => {
            assert_eq!(found.kernel.features, "HeightLocked");
            assert_eq!(found.kernel.fee, 5);
        }
        other => panic!("unexpected {:?}", other),
    }
    let relative = reading_doc(
        r#"{"result": {"Ok": {"height": 9, "tx_kernel": {
            "excess": "09c4", "features": {"NoRecentDuplicate": {"fee": 6, "relative_height": 1}}}}}}"#,
    );
    match read_kernel(&relative) {
        Fetch::Reply(found) => {
            assert_eq!(found.kernel.features, "NoRecentDuplicate");
            assert_eq!(found.kernel.fee, 6);
        }
        other => panic!("unexpected {:?}", other),
    }
    let unknown = reading_doc(
        r#"{"result": {"Ok": {"height": 9, "tx_kernel": {
            "excess": "09c5", "features": {"Other": {"fee": 6}}}}}}"#,
    );
    assert_eq!(read_kernel(&unknown), Fetch::Failed(RpcError::Malformed));
}

#[test]
fn an_output_is_read() {
    let doc = reading_doc(
        r#"{"result": {"Ok": [{"block_height": 9, "commit": "08b1",
            "output_type": "Transaction", "spent": false, "mmr_index": 3}]}}"#,
    );
    match read_output(&doc) {
        Fetch::Reply(found) => {
            assert_eq!(found.height, 9);
            assert_eq!(found.output.commit, "08b1");
            assert_eq!(found.output.output_type, "Transaction");
            assert_eq!(found.raw, serde_json::to_string_pretty(&doc).unwrap());
        }
        other => panic!("unexpected {:?}", other),
    }
    assert_eq!(
        read_output(&reading_doc(r#"{"result": {"Ok": []}}"#)),
        Fetch::Failed(RpcError::Malformed)
    );
}

#[test]
fn a_page_of_outputs_is_read() {
    let doc = reading_doc(
        r#"{"result": {"Ok": {"highest_index": 25000, "last_retrieved_index": 12000,
            "outputs": [{"mmr_index": 1}, {"mmr_index": 7}, {"mmr_index": 12000}]}}}"#,
    );
    assert_eq!(
        read_outputs_page(&doc),
        Fetch::Reply(OutputsPage { highest_index: 25000, last_index: Some(12000), outputs: 3 })
    );
    let empty = reading_doc(r#"{"result": {"Ok": {"highest_index": 25000, "outputs": []}}}"#);
    assert_eq!(
        read_outputs_page(&empty),
        Fetch::Reply(OutputsPage { highest_index: 25000, last_index: None, outputs: 0 })
    );
    let broken = reading_doc(r#"{"result": {"Ok": {"highest_index": 25000, "outputs": [{}]}}}"#);
    assert_eq!(read_outputs_page(&broken), Fetch::Failed(RpcError::Malformed));
    let no_top = reading_doc(r#"{"result": {"Ok": {"outputs": []}}}"#);
    assert_eq!(read_outputs_page(&no_top), Fetch::Failed(RpcError::Malformed));
}
