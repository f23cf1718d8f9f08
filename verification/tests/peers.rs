use grin_explorer::data::Dashboard;
use grin_explorer::peers::{agent_names, histogram, AgentCount};
use grin_explorer::requests::{count_direction, get_connected_peers, Failure, Outcome, Skip};
use grin_explorer::rpc::{Fetch, PeerReply, RpcError};
use grin_explorer::statistics::Statistics;

fn peers_agents(names: &[&str]) -> Vec<String> {
    names.iter().map(|name| String::from(*name)).collect()
}

fn peers_peer(direction: &str, agent: &str) -> PeerReply {
    PeerReply { direction: String::from(direction), user_agent: String::from(agent) }
}

fn peers_line(agent: &str, count: u64) -> AgentCount {
    AgentCount { agent: String::from(agent), count }
}

#[test]
fn the_histogram_orders_agents_by_count() {
    let lines = histogram(&peers_agents(&["A", "A", "B", "A", "C"]));
    assert_eq!(lines, vec![peers_line("A", 3), peers_line("B", 1), peers_line("C", 1)]);
    let mut statistics = Statistics::new();
    statistics.peers = lines;
    statistics.total = 5;
    assert_eq!(statistics.user_agent(), vec!["A", "B", "C"]);
    assert_eq!(statistics.count(), vec!["3", "1", "1"]);
    assert_eq!(statistics.total, 5);
}

#[test]
fn a_later_agent_overtakes_a_rarer_one() {
    let lines = histogram(&peers_agents(&["x", "y", "y", "z", "z", "z", "y", "w"]));
    assert_eq!(
        lines,
        vec![peers_line("y", 3), peers_line("z", 3), peers_line("x", 1), peers_line("w", 1)]
    );
    assert_eq!(agent_names(&lines), vec!["y", "z", "x", "w"]);
}

#[test]
fn the_histogram_of_no_peers_is_empty() {
    assert_eq!(histogram(&Vec::new()), Vec::new());
    assert_eq!(histogram(&peers_agents(&["only"])), vec![peers_line("only", 1)]);
}

#[test]
fn peers_are_counted_by_direction() {
    let peers = vec![
        peers_peer("Inbound", "A"),
        peers_peer("Outbound", "A"),
        peers_peer("Outbound", "B"),
        peers_peer("Sideways", "C"),
    ];
    assert_eq!(count_direction(&peers, "Inbound"), 1);
    assert_eq!(count_direction(&peers, "Outbound"), 2);
    assert_eq!(count_direction(&peers, "inbound"), 0);
    assert_eq!(count_direction(&Vec::new(), "Inbound"), 0);
}

#[test]
fn peers_of_other_nodes_join_the_histogram() {
    let mut dashboard = Dashboard::new();
    let mut statistics = Statistics::new();
    let local = Fetch::Reply(vec![
        peers_peer("Inbound", "A"),
        peers_peer("Outbound", "A"),
        peers_peer("Outbound", "B"),
    ]);
    let external = vec![
        Fetch::Reply(vec![peers_peer("Inbound", "A"), peers_peer("Inbound", "C")]),
        Fetch::Failed(RpcError::Unreachable),
        Fetch::Empty,
        Fetch::Reply(vec![peers_peer("Outbound", "C"), peers_peer("Outbound", "C")]),
    ];
    let outcome = get_connected_peers(&mut dashboard, &mut statistics, &local, &external);
    assert_eq!(outcome, Outcome::Updated);
    assert_eq!(dashboard.inbound, 1);
    assert_eq!(dashboard.outbound, 2);
    assert_eq!(statistics.peers, vec![peers_line("A", 3), peers_line("C", 3), peers_line("B", 1)]);
    assert_eq!(statistics.total, 7);
    assert!(statistics.days.is_empty());
}

#[test]
fn a_failed_peer_call_leaves_counts_and_histogram() {
    let mut dashboard = Dashboard::new();
    dashboard.inbound = 4;
    dashboard.outbound = 8;
    let mut statistics = Statistics::new();
    statistics.peers = vec![peers_line("A", 12)];
    statistics.total = 12;
    let dashboard_before = dashboard.clone();
    let statistics_before = statistics.clone();
    let external = vec![Fetch::Reply(vec![peers_peer("Inbound", "Z")])];
    assert_eq!(
        get_connected_peers(
            &mut dashboard,
            &mut statistics,
            &Fetch::Failed(RpcError::Unreachable),
            &external
        ),
        Outcome::Failed(Failure::Call(RpcError::Unreachable))
    );
    assert_eq!(
        get_connected_peers(&mut dashboard, &mut statistics, &Fetch::Empty, &external),
        Outcome::Skipped(Skip::NothingReported)
    );
    assert_eq!(dashboard, dashboard_before);
    assert_eq!(statistics, statistics_before);
}
