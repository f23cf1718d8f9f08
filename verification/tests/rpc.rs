use grin_explorer::data::ExplorerConfig;
use grin_explorer::rpc::{
    block_params, block_request, blocks_params, blocks_request, call, call_external, endpoint,
    envelope, external_peers_request, header_params, header_request, kernel_params,
    kernel_request, output_params, output_request, peers_request, pool_request,
    status_request, stempool_request, unspent_params, unspent_request, Scope,
};

fn rpc_config(port: &str) -> ExplorerConfig {
    let mut config = ExplorerConfig::new();
    config.host = String::from("127.0.0.1");
    config.port = String::from(port);
    config.proto = String::from("http");
    config.user = String::from("grin");
    config.api_secret = String::from("owner-word");
    config.foreign_api_secret = String::from("foreign-word");
    config
}

#[test]
fn a_new_configuration_is_empty() {
    let config = ExplorerConfig::new();
    assert_eq!(config.host, "");
    assert_eq!(config.port, "");
    assert_eq!(config.proto, "");
    assert_eq!(config.user, "");
    assert_eq!(config.api_secret_path, "");
    assert_eq!(config.foreign_api_secret_path, "");
    assert_eq!(config.grin_dir, "");
    assert_eq!(config.api_secret, "");
    assert_eq!(config.foreign_api_secret, "");
    assert_eq!(config.coingecko_api, "");
    assert_eq!(config.public_api, "");
    assert!(config.external_nodes.is_empty());
    assert_eq!(config.database, "");
}

#[test]
fn the_endpoint_names_scheme_host_port_and_scope() {
    assert_eq!(endpoint(&rpc_config("3413"), Scope::Owner), "http://127.0.0.1:3413/v2/owner");
    assert_eq!(endpoint(&rpc_config("3413"), Scope::Foreign), "http://127.0.0.1:3413/v2/foreign");
}

#[test]
fn the_endpoint_leaves_out_a_port_that_is_not_set() {
    assert_eq!(endpoint(&rpc_config(""), Scope::Foreign), "http://127.0.0.1/v2/foreign");
}

#[test]
fn the_envelope_is_json_rpc() {
    assert_eq!(
        envelope("get_status", "[]", "1"),
        "{\"method\": \"get_status\", \"params\": [], \"id\": 1, \"jsonrpc\": \"2.0\"}"
    );
}

#[test]
fn a_call_carries_the_secret_of_its_scope() {
    let config = rpc_config("3413");
    let owner = call(&config, "get_status", "[]", "1", Scope::Owner);
    assert_eq!(owner.url, "http://127.0.0.1:3413/v2/owner");
    assert_eq!(owner.body, envelope("get_status", "[]", "1"));
    assert_eq!(owner.auth, Some((String::from("grin"), String::from("owner-word"))));
    assert_eq!(owner.timeout, 10);
    let foreign = call(&config, "get_block", "[5, null, null]", "7", Scope::Foreign);
    assert_eq!(foreign.url, "http://127.0.0.1:3413/v2/foreign");
    assert_eq!(foreign.body, envelope("get_block", "[5, null, null]", "7"));
    assert_eq!(foreign.auth, Some((String::from("grin"), String::from("foreign-word"))));
    assert_eq!(foreign.timeout, 10);
}

#[test]
fn a_call_to_another_node_carries_no_secret() {
    let request =
        call_external("get_connected_peers", "[]", "1", Scope::Owner, "https://node.example.org");
    assert_eq!(request.url, "https://node.example.org/v2/owner");
    assert_eq!(request.body, envelope("get_connected_peers", "[]", "1"));
    assert_eq!(request.auth, None);
    assert_eq!(request.timeout, 10);
}

#[test]
fn parameters_are_written_as_the_node_reads_them() {
    assert_eq!(block_params(1441), "[1441, null, null]");
    assert_eq!(block_params(0), "[0, null, null]");
    assert_eq!(header_params("00ab"), "[null, \"00ab\", null]");
    assert_eq!(kernel_params("09cd"), "[\"09cd\", null, null]");
    assert_eq!(output_params("08ef"), "[[\"08ef\"], null, null, true, true]");
    assert_eq!(blocks_params(1560, 2280, 720), "[1560, 2280, 720, false]");
    assert_eq!(unspent_params(1, None, 10000), "[1, null, 10000, false]");
    assert_eq!(unspent_params(12001, Some(25000), 10000), "[12001, 25000, 10000, false]");
}

#[test]
fn each_call_names_its_method_and_its_scope() {
    let config = rpc_config("3413");
    let owner = Some((String::from("grin"), String::from("owner-word")));
    let foreign = Some((String::from("grin"), String::from("foreign-word")));
    let cases = [
        (status_request(&config), "owner", "get_status", "[]", &owner),
        (peers_request(&config), "owner", "get_connected_peers", "[]", &owner),
        (pool_request(&config), "foreign", "get_pool_size", "[]", &foreign),
        (stempool_request(&config), "foreign", "get_stempool_size", "[]", &foreign),
        (block_request(&config, 1441), "foreign", "get_block", "[1441, null, null]", &foreign),
        (header_request(&config, "00ab"), "foreign", "get_header", "[null, \"00ab\", null]", &foreign),
        (kernel_request(&config, "09cd"), "foreign", "get_kernel", "[\"09cd\", null, null]", &foreign),
        (
            output_request(&config, "08ef"),
            "foreign",
            "get_outputs",
            "[[\"08ef\"], null, null, true, true]",
            &foreign,
        ),
        (
            blocks_request(&config, 1560, 2280),
            "foreign",
            "get_blocks",
            "[1560, 2280, 720, false]",
            &foreign,
        ),
        (
            unspent_request(&config, 12001),
            "foreign",
            "get_unspent_outputs",
            "[12001, null, 10000, false]",
            &foreign,
        ),
    ];
    for (request, scope, method, params, auth) in cases {
        assert_eq!(request.url, format!("http://127.0.0.1:3413/v2/{}", scope));
        assert_eq!(request.body, envelope(method, params, "1"));
        assert_eq!(&request.auth, auth);
        assert_eq!(request.timeout, 10);
    }
}

#[test]
fn the_peers_of_another_node_are_asked_without_a_secret() {
    let request = external_peers_request("https://node.example.org:3413");
    assert_eq!(request.url, "https://node.example.org:3413/v2/owner");
    assert_eq!(request.body, envelope("get_connected_peers", "[]", "1"));
    assert_eq!(request.auth, None);
    assert_eq!(request.timeout, 10);
}
