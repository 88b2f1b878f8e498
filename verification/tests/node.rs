use libp2p_wasm_chat::node::{
    Authenticity, ChatNode, Flavor, NodeAction, NodeEvent, Notice, StartError, Validation,
};

fn incoming() -> NodeEvent {
    NodeEvent::IncomingConnection { local_address: LISTEN.to_vec(), send_back_address: vec![4, 9] }
}

fn message(text: &str) -> NodeEvent {
    NodeEvent::UserMessage { text: text.to_string() }
}

const LISTEN: [u8; 10] = [4, 0, 0, 0, 0, 6, 0, 0, 0xdd, 0x03];

#[test]
fn typed_message_is_published_on_both_topics() {
    for flavor in [Flavor::Browser, Flavor::Terminal] {
        let node = ChatNode::new(flavor);
        assert_eq!(
            node.handle(message("hello there")),
            vec![
                NodeAction::PublishFloodsub {
                    topic: "chat".to_string(),
                    text: "hello there".to_string()
                },
                NodeAction::PublishGossipsub {
                    topic: "gossip-chat".to_string(),
                    text: "hello there".to_string()
                },
            ]
        );
    }
}

#[test]
fn empty_message_is_published_too() {
    let node = ChatNode::new(Flavor::Browser);
    let actions = node.handle(message(""));
    assert_eq!(actions.len(), 2);
}

#[test]
fn established_connection_adds_the_peer_to_both_protocols() {
    let peer = vec![0, 36, 8, 1, 18, 32, 7, 7, 7];
    let browser = ChatNode::new(Flavor::Browser)
        .handle(NodeEvent::ConnectionEstablished { peer: peer.clone() });
    assert_eq!(
        browser,
        vec![
            NodeAction::AddFloodsubPeer { peer: peer.clone() },
            NodeAction::AddGossipsubPeer { peer: peer.clone() },
            NodeAction::Report(Notice::Connected { peer: peer.clone() }),
        ]
    );
    let terminal = ChatNode::new(Flavor::Terminal)
        .handle(NodeEvent::ConnectionEstablished { peer: peer.clone() });
    assert_eq!(
        terminal,
        vec![
            NodeAction::AddFloodsubPeer { peer: peer.clone() },
            NodeAction::AddGossipsubPeer { peer },
        ]
    );
}

#[test]
fn received_gossip_is_shown_in_both_front_ends() {
    for flavor in [Flavor::Browser, Flavor::Terminal] {
        let node = ChatNode::new(flavor);
        let event = NodeEvent::GossipMessage { data: b"hi".to_vec(), source: Some(vec![1, 2]) };
        assert_eq!(
            node.handle(event),
            vec![NodeAction::Report(Notice::ReceivedGossip {
                data: b"hi".to_vec(),
                source: Some(vec![1, 2])
            })]
        );
    }
}

#[test]
fn browser_reports_swarm_events_the_terminal_ignores() {
    let browser = ChatNode::new(Flavor::Browser);
    let terminal = ChatNode::new(Flavor::Terminal);
    assert_eq!(
        browser.handle(incoming()),
        vec![NodeAction::Report(Notice::IncomingConnection {
            local_address: LISTEN.to_vec(),
            send_back_address: vec![4, 9]
        })]
    );
    assert_eq!(
        browser.handle(NodeEvent::Dialing { peer: Some(vec![7]) }),
        vec![NodeAction::Report(Notice::Dialing { peer: Some(vec![7]) })]
    );
    assert_eq!(
        browser.handle(NodeEvent::GossipsubOther),
        vec![NodeAction::Report(Notice::GossipsubEvent)]
    );
    assert!(terminal.handle(incoming()).is_empty());
    assert!(terminal.handle(NodeEvent::Dialing { peer: None }).is_empty());
    assert!(terminal.handle(NodeEvent::GossipsubOther).is_empty());
}

#[test]
fn only_the_terminal_reports_listen_addresses() {
    let event = || NodeEvent::NewListenAddr { address: LISTEN.to_vec() };
    assert!(ChatNode::new(Flavor::Browser).handle(event()).is_empty());
    assert_eq!(
        ChatNode::new(Flavor::Terminal).handle(event()),
        vec![NodeAction::Report(Notice::ListeningOn { address: LISTEN.to_vec() })]
    );
}

#[test]
fn floodsub_ping_and_other_events_are_ignored() {
    for flavor in [Flavor::Browser, Flavor::Terminal] {
        let node = ChatNode::new(flavor);
        assert!(node.handle(NodeEvent::Floodsub).is_empty());
        assert!(node.handle(NodeEvent::Ping).is_empty());
        assert!(node.handle(NodeEvent::OtherSwarm).is_empty());
    }
}

#[test]
fn submitted_address_is_dialed_and_a_failed_dial_reported() {
    let node = ChatNode::new(Flavor::Browser);
    assert_eq!(
        node.handle(NodeEvent::PeerAddress { address: vec![4, 127, 0, 0, 1] }),
        vec![NodeAction::Dial { address: vec![4, 127, 0, 0, 1] }]
    );
    assert_eq!(
        node.handle(NodeEvent::DialFailed { error: "no transport".to_string() }),
        vec![NodeAction::Report(Notice::DialFailed { error: "no transport".to_string() })]
    );
}

#[test]
fn browser_starts_by_subscribing() {
    let node = ChatNode::new(Flavor::Browser);
    assert_eq!(
        node.startup(None),
        Ok(vec![
            NodeAction::SubscribeFloodsub { topic: "chat".to_string() },
            NodeAction::SubscribeGossipsub { topic: "gossip-chat".to_string() },
        ])
    );
}

#[test]
fn terminal_starts_by_subscribing_and_listening() {
    let node = ChatNode::new(Flavor::Terminal);
    assert_eq!(
        node.startup(None),
        Ok(vec![
            NodeAction::SubscribeGossipsub { topic: "gossip-chat".to_string() },
            NodeAction::SubscribeFloodsub { topic: "chat".to_string() },
            NodeAction::ListenOn { address: LISTEN.to_vec() },
        ])
    );
}

#[test]
fn terminal_dials_the_address_it_is_given() {
    let node = ChatNode::new(Flavor::Terminal);
    let target = "/ip4/127.0.0.1/tcp/24915/ws".to_string();
    assert_eq!(
        node.startup(Some(target.clone())),
        Ok(vec![
            NodeAction::SubscribeGossipsub { topic: "gossip-chat".to_string() },
            NodeAction::SubscribeFloodsub { topic: "chat".to_string() },
            NodeAction::Dial { address: vec![4, 127, 0, 0, 1, 6, 0x61, 0x53, 0xdd, 0x03] },
            NodeAction::Report(Notice::Dialed { target }),
            NodeAction::ListenOn { address: LISTEN.to_vec() },
        ])
    );
}

#[test]
fn start_fails_on_an_address_that_is_not_a_multiaddr() {
    for flavor in [Flavor::Browser, Flavor::Terminal] {
        let node = ChatNode::new(flavor);
        assert_eq!(
            node.startup(Some("localhost:24915".to_string())),
            Err(StartError::InvalidDialAddress)
        );
    }
}

#[test]
fn settings_match_the_chat_configuration() {
    let settings = ChatNode::new(Flavor::Browser).settings();
    assert_eq!(settings.gossip_heartbeat_secs, 10);
    assert_eq!(settings.gossip_validation, Validation::Permissive);
    assert_eq!(settings.gossip_authenticity, Authenticity::SignedWithLocalKey);
    assert!(settings.ping_keep_alive);
    assert_eq!(settings.transport_timeout_secs, 10);
}

#[test]
fn front_ends_act_alike_on_the_swarm() {
    let events = || {
        vec![
            NodeEvent::GossipMessage { data: vec![1], source: None },
            NodeEvent::GossipsubOther,
            NodeEvent::Floodsub,
            NodeEvent::Ping,
            incoming(),
            NodeEvent::Dialing { peer: None },
            NodeEvent::ConnectionEstablished { peer: vec![9] },
            NodeEvent::NewListenAddr { address: LISTEN.to_vec() },
            NodeEvent::PeersDiscovered { peers: vec![vec![1], vec![2]] },
            NodeEvent::OtherSwarm,
            NodeEvent::PeerAddress { address: vec![4, 1, 2, 3, 4] },
            NodeEvent::DialFailed { error: "e".to_string() },
            message("x"),
        ]
    };
    let swarm_only = |actions: Vec<NodeAction>| -> Vec<NodeAction> {
        actions.into_iter().filter(|a| !matches!(a, NodeAction::Report(_))).collect()
    };
    for (b, t) in events().into_iter().zip(events()) {
        assert_eq!(
            swarm_only(ChatNode::new(Flavor::Browser).handle(b)),
            swarm_only(ChatNode::new(Flavor::Terminal).handle(t))
        );
    }
}

#[test]
fn discovered_peers_join_both_protocols_in_order() {
    let node = ChatNode::new(Flavor::Terminal);
    assert_eq!(
        node.handle(NodeEvent::PeersDiscovered { peers: vec![vec![1, 1], vec![2, 2]] }),
        vec![
            NodeAction::AddFloodsubPeer { peer: vec![1, 1] },
            NodeAction::AddGossipsubPeer { peer: vec![1, 1] },
            NodeAction::AddFloodsubPeer { peer: vec![2, 2] },
            NodeAction::AddGossipsubPeer { peer: vec![2, 2] },
        ]
    );
    assert!(node.handle(NodeEvent::PeersDiscovered { peers: vec![] }).is_empty());
}
