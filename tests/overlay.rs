use peernet::{NetError, Network, NodeAddr, Packet, Request, Response};

fn v4(a: u8, b: u8, c: u8, d: u8, port: u16) -> NodeAddr {
    NodeAddr::V4 { ip4: u32::from_be_bytes([a, b, c, d]), port }
}

fn sorted(mut v: Vec<NodeAddr>) -> Vec<NodeAddr> {
    v.sort_by_key(|a| format!("{:?}", a));
    v
}

fn nodes_of(reply: Result<Option<Packet>, NetError>) -> Vec<NodeAddr> {
    match reply {
        Ok(Some(Packet::Response(Response::Nodes { nodes }))) => nodes,
        other => panic!("unexpected {:?}", other),
    }
}

#[test]
fn new_network_knows_nobody() {
    let own = v4(127, 0, 0, 1, 8000);
    let net = Network::new(own);
    assert!(net.nodes().is_empty());
    assert_eq!(net.addr(), own);
    assert_eq!(own.port(), 8000);
}

#[test]
fn repeated_connects_keep_distinct_addresses() {
    let a = v4(10, 0, 0, 1, 9000);
    let b = v4(10, 0, 0, 2, 9000);
    let mut net = Network::new(v4(127, 0, 0, 1, 8000));
    for peer in [a, a, b, a, b] {
        let r = net.handle_incoming(peer, Ok(Packet::Request(Request::Connect)));
        assert!(matches!(r, Ok(None)));
    }
    assert_eq!(sorted(net.nodes()), sorted(vec![a, b]));
}

#[test]
fn nodes_request_returns_snapshot() {
    let a = v4(10, 0, 0, 1, 1);
    let b = v4(10, 0, 0, 2, 2);
    let c = NodeAddr::V6 { ip6: 1, port: 3, flowinfo: 0, scope_id: 0 };
    let mut net = Network::new(a);
    net.register_self(a);
    net.handle_incoming(b, Ok(Packet::Request(Request::Connect))).unwrap();
    net.handle_incoming(c, Ok(Packet::Request(Request::Connect))).unwrap();
    let stranger = v4(192, 168, 1, 1, 4242);
    let nodes = nodes_of(net.handle_incoming(stranger, Ok(Packet::Request(Request::Nodes))));
    assert_eq!(sorted(nodes), sorted(vec![a, b, c]));
    assert_eq!(net.nodes().len(), 3);
}

#[test]
fn block_and_responses_are_ignored() {
    let a = v4(10, 0, 0, 1, 1);
    let mut net = Network::new(a);
    let r = net.handle_incoming(a, Ok(Packet::Request(Request::Block {})));
    assert!(matches!(r, Ok(None)));
    let r = net.handle_incoming(a, Ok(Packet::Response(Response::Nodes { nodes: vec![a] })));
    assert!(matches!(r, Ok(None)));
    assert!(net.nodes().is_empty());
}

#[test]
fn failed_connection_does_not_disturb_another() {
    let a = v4(10, 0, 0, 1, 1);
    let b = v4(10, 0, 0, 2, 2);
    let mut net = Network::new(a);
    net.register_self(a);
    let r = net.handle_incoming(b, Err(NetError::Protocol));
    assert_eq!(r.unwrap_err(), NetError::Protocol);
    let nodes = nodes_of(net.handle_incoming(b, Ok(Packet::Request(Request::Nodes))));
    assert_eq!(nodes, vec![a]);
}

#[test]
fn connect_merges_listed_nodes() {
    let own = v4(127, 0, 0, 1, 8000);
    let a = v4(10, 0, 0, 1, 1);
    let b = v4(10, 0, 0, 2, 2);
    let mut net = Network::new(own);
    let reply = Packet::Response(Response::Nodes { nodes: vec![a, b, a] });
    assert_eq!(net.connect(Ok(reply)), Ok(()));
    assert_eq!(sorted(net.nodes()), sorted(vec![a, b]));
}

#[test]
fn connect_failure_leaves_registry_unchanged() {
    let own = v4(127, 0, 0, 1, 8000);
    let a = v4(10, 0, 0, 1, 1);
    let mut net = Network::new(own);
    net.register_self(a);
    assert_eq!(net.connect(Err(NetError::Transport)), Err(NetError::Transport));
    assert_eq!(net.nodes(), vec![a]);
    assert_eq!(net.connect(Err(NetError::Protocol)), Err(NetError::Protocol));
    assert_eq!(net.nodes(), vec![a]);
}

#[test]
fn connect_ignores_requests() {
    let own = v4(127, 0, 0, 1, 8000);
    let mut net = Network::new(own);
    assert_eq!(net.connect(Ok(Packet::Request(Request::Connect))), Ok(()));
    assert!(net.nodes().is_empty());
}

#[test]
fn ready_skips_own_address() {
    let own = v4(127, 0, 0, 1, 8000);
    let a = v4(10, 0, 0, 1, 1);
    let b = v4(10, 0, 0, 2, 2);
    let mut net = Network::new(own);
    net.register_self(own);
    net.connect(Ok(Packet::Response(Response::Nodes { nodes: vec![a, own, b] }))).unwrap();
    assert_eq!(sorted(net.ready()), sorted(vec![a, b]));
}
