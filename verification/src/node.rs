//! The chat node: what it does when it starts and on each event that reaches
//! its loop, whether from the network or from the user.
//!
//! The front end runs the loop: it turns each swarm event or user input into a
//! `NodeEvent`, asks the node for the actions, and performs them on the
//! libp2p swarm (or prints the reports).
use crate::address::{multiaddr_encoding, parse_multiaddr, text_of};
use vstd::prelude::*;

verus! {

/// Which front end runs the node.
#[derive(Debug, Clone, Copy, PartialEq, Eq, Structural)]
pub enum Flavor {
    /// The node in the browser page: it reports most swarm events to the console.
    Browser,
    /// The node in the terminal: it reports only received messages and listen addresses.
    Terminal,
}

/// How gossipsub validates messages before forwarding them.
#[derive(Debug, Clone, Copy, PartialEq, Eq, Structural)]
pub enum Validation {
    /// Forward messages whether or not they are signed.
    Permissive,
}

/// How gossipsub authenticates the messages the node publishes.
#[derive(Debug, Clone, Copy, PartialEq, Eq, Structural)]
pub enum Authenticity {
    /// Sign each message with the node's own key, which also gives its peer id.
    SignedWithLocalKey,
}

/// The settings with which the front end builds the swarm.
#[derive(Debug, Clone, PartialEq, Eq)]
pub struct Settings {
    /// Seconds between two gossipsub heartbeats.
    pub gossip_heartbeat_secs: u64,
    /// How gossipsub validates messages.
    pub gossip_validation: Validation,
    /// How gossipsub authenticates the messages the node publishes.
    pub gossip_authenticity: Authenticity,
    /// Whether ping keeps idle connections alive.
    pub ping_keep_alive: bool,
    /// Seconds after which an unfinished transport upgrade times out.
    pub transport_timeout_secs: u64,
}

/// Something the node wants shown to the user.
#[derive(Debug, Clone, PartialEq, Eq)]
pub enum Notice {
    /// A gossipsub message arrived: its data and, when known, the encoded id of its author.
    ReceivedGossip { data: Vec<u8>, source: Option<Vec<u8>> },
    /// Some other gossipsub event happened.
    GossipsubEvent,
    /// A remote opened a connection: the encoded local address it reached
    /// and the encoded address to send back to.
    IncomingConnection { local_address: Vec<u8>, send_back_address: Vec<u8> },
    /// The swarm started dialing the peer with this encoded id, when it is known.
    Dialing { peer: Option<Vec<u8>> },
    /// A connection to the peer with this encoded id was established.
    Connected { peer: Vec<u8> },
    /// The swarm listens on this encoded address.
    ListeningOn { address: Vec<u8> },
    /// A dial could not be started, for the reason given.
    DialFailed { error: String },
    /// The address given at startup was dialed.
    Dialed { target: String },
}

/// An event that reaches the node's loop.
#[derive(Debug, Clone, PartialEq, Eq)]
pub enum NodeEvent {
    /// A gossipsub message: its data and, when known, the encoded id of its author.
    GossipMessage { data: Vec<u8>, source: Option<Vec<u8>> },
    /// Any other gossipsub event.
    GossipsubOther,
    /// Any floodsub event.
    Floodsub,
    /// Any ping event.
    Ping,
    /// A remote opened a connection: the encoded local address it reached
    /// and the encoded address to send back to.
    IncomingConnection { local_address: Vec<u8>, send_back_address: Vec<u8> },
    /// The swarm started dialing the peer with this encoded id, when it is known.
    Dialing { peer: Option<Vec<u8>> },
    /// A connection to the peer with this encoded id was established.
    ConnectionEstablished { peer: Vec<u8> },
    /// The swarm listens on this encoded address.
    NewListenAddr { address: Vec<u8> },
    /// mDNS discovered the peers with these encoded ids on the local network.
    PeersDiscovered { peers: Vec<Vec<u8>> },
    /// Any other swarm event.
    OtherSwarm,
    /// The user asked to connect to the peer at this encoded multiaddr.
    PeerAddress { address: Vec<u8> },
    /// A dial the node asked for could not be started, for the reason given.
    DialFailed { error: String },
    /// The user typed this chat message.
    UserMessage { text: String },
}

/// Something the front end must do on the swarm or show to the user.
#[derive(Debug, Clone, PartialEq, Eq)]
pub enum NodeAction {
    /// Show a notice.
    Report(Notice),
    /// Subscribe floodsub to the topic with this name.
    SubscribeFloodsub { topic: String },
    /// Subscribe gossipsub to the SHA-256 topic with this name.
    SubscribeGossipsub { topic: String },
    /// Add the peer with this encoded id to floodsub's partial view.
    AddFloodsubPeer { peer: Vec<u8> },
    /// Add the peer with this encoded id to gossipsub's explicit peers.
    AddGossipsubPeer { peer: Vec<u8> },
    /// Dial this encoded multiaddr.
    Dial { address: Vec<u8> },
    /// Listen on this encoded multiaddr.
    ListenOn { address: Vec<u8> },
    /// Publish the text on the floodsub topic with this name.
    PublishFloodsub { topic: String, text: String },
    /// Publish the text on the gossipsub SHA-256 topic with this name.
    PublishGossipsub { topic: String, text: String },
}

/// Why the node could not start.
#[derive(Debug, Clone, Copy, PartialEq, Eq, Structural)]
pub enum StartError {
    /// The address given to dial at startup is not a multiaddr.
    InvalidDialAddress,
    /// The address to listen on is not a multiaddr.
    InvalidListenAddress,
}

/// A notice, over plain values.
pub enum NoticeView {
    ReceivedGossip { data: Seq<u8>, source: Option<Seq<u8>> },
    GossipsubEvent,
    IncomingConnection { local_address: Seq<u8>, send_back_address: Seq<u8> },
    Dialing { peer: Option<Seq<u8>> },
    Connected { peer: Seq<u8> },
    ListeningOn { address: Seq<u8> },
    DialFailed { error: Seq<char> },
    Dialed { target: Seq<char> },
}

/// An event, over plain values.
pub enum EventView {
    GossipMessage { data: Seq<u8>, source: Option<Seq<u8>> },
    GossipsubOther,
    Floodsub,
    Ping,
    IncomingConnection { local_address: Seq<u8>, send_back_address: Seq<u8> },
    Dialing { peer: Option<Seq<u8>> },
    ConnectionEstablished { peer: Seq<u8> },
    NewListenAddr { address: Seq<u8> },
    PeersDiscovered { peers: Seq<Seq<u8>> },
    OtherSwarm,
    PeerAddress { address: Seq<u8> },
    DialFailed { error: Seq<char> },
    UserMessage { text: Seq<char> },
}

/// An action, over plain values.
pub enum ActionView {
    Report(NoticeView),
    SubscribeFloodsub { topic: Seq<char> },
    SubscribeGossipsub { topic: Seq<char> },
    AddFloodsubPeer { peer: Seq<u8> },
    AddGossipsubPeer { peer: Seq<u8> },
    Dial { address: Seq<u8> },
    ListenOn { address: Seq<u8> },
    PublishFloodsub { topic: Seq<char>, text: Seq<char> },
    PublishGossipsub { topic: Seq<char>, text: Seq<char> },
}

/// The bytes that an optional byte vector holds.
pub open spec fn bytes_of(value: Option<Vec<u8>>) -> Option<Seq<u8>> {
    match value {
        Some(v) => Some(v@),
        None => None,
    }
}

/// A list of encoded peer ids, over plain values.
pub open spec fn peer_list(peers: Seq<Vec<u8>>) -> Seq<Seq<u8>> {
    peers.map_values(|p: Vec<u8>| p@)
}

impl View for Notice {
    type V = NoticeView;

    open spec fn view(&self) -> NoticeView {
        match self {
            Notice::ReceivedGossip { data, source } => NoticeView::ReceivedGossip {
                data: data@,
                source: bytes_of(*source),
            },
            Notice::GossipsubEvent => NoticeView::GossipsubEvent,
            Notice::IncomingConnection { local_address, send_back_address } =>
                NoticeView::IncomingConnection {
                local_address: local_address@,
                send_back_address: send_back_address@,
            },
            Notice::Dialing { peer } => NoticeView::Dialing { peer: bytes_of(*peer) },
            Notice::Connected { peer } => NoticeView::Connected { peer: peer@ },
            Notice::ListeningOn { address } => NoticeView::ListeningOn { address: address@ },
            Notice::DialFailed { error } => NoticeView::DialFailed { error: error@ },
            Notice::Dialed { target } => NoticeView::Dialed { target: target@ },
        }
    }
}

impl View for NodeEvent {
    type V = EventView;

    open spec fn view(&self) -> EventView {
        match self {
            NodeEvent::GossipMessage { data, source } => EventView::GossipMessage {
                data: data@,
                source: bytes_of(*source),
            },
            NodeEvent::GossipsubOther => EventView::GossipsubOther,
            NodeEvent::Floodsub => EventView::Floodsub,
            NodeEvent::Ping => EventView::Ping,
            NodeEvent::IncomingConnection { local_address, send_back_address } =>
                EventView::IncomingConnection {
                local_address: local_address@,
                send_back_address: send_back_address@,
            },
            NodeEvent::Dialing { peer } => EventView::Dialing { peer: bytes_of(*peer) },
            NodeEvent::ConnectionEstablished { peer } => EventView::ConnectionEstablished {
                peer: peer@,
            },
            NodeEvent::NewListenAddr { address } => EventView::NewListenAddr {
                address: address@,
            },
            NodeEvent::PeersDiscovered { peers } => EventView::PeersDiscovered {
                peers: peer_list(peers@),
            },
            NodeEvent::OtherSwarm => EventView::OtherSwarm,
            NodeEvent::PeerAddress { address } => EventView::PeerAddress { address: address@ },
            NodeEvent::DialFailed { error } => EventView::DialFailed { error: error@ },
            NodeEvent::UserMessage { text } => EventView::UserMessage { text: text@ },
        }
    }
}

impl View for NodeAction {
    type V = ActionView;

    open spec fn view(&self) -> ActionView {
        match self {
            NodeAction::Report(notice) => ActionView::Report(notice@),
            NodeAction::SubscribeFloodsub { topic } => ActionView::SubscribeFloodsub {
                topic: topic@,
            },
            NodeAction::SubscribeGossipsub { topic } => ActionView::SubscribeGossipsub {
                topic: topic@,
            },
            NodeAction::AddFloodsubPeer { peer } => ActionView::AddFloodsubPeer { peer: peer@ },
            NodeAction::AddGossipsubPeer { peer } => ActionView::AddGossipsubPeer { peer: peer@ },
            NodeAction::Dial { address } => ActionView::Dial { address: address@ },
            NodeAction::ListenOn { address } => ActionView::ListenOn { address: address@ },
            NodeAction::PublishFloodsub { topic, text } => ActionView::PublishFloodsub {
                topic: topic@,
                text: text@,
            },
            NodeAction::PublishGossipsub { topic, text } => ActionView::PublishGossipsub {
                topic: topic@,
                text: text@,
            },
        }
    }
}

/// The actions in a vector, over plain values.
pub open spec fn actions_view(actions: Seq<NodeAction>) -> Seq<ActionView> {
    actions.map_values(|a: NodeAction| a@)
}

/// The name of the floodsub topic the chat runs on.
pub open spec fn floodsub_topic() -> Seq<char> {
    "chat"@
}

/// The name of the gossipsub topic the chat runs on.
pub open spec fn gossipsub_topic() -> Seq<char> {
    "gossip-chat"@
}

/// The address the terminal node listens on: any IPv4 interface, a port the
/// system picks, over websocket.
pub open spec fn listen_address() -> Seq<char> {
    "/ip4/0.0.0.0/tcp/0/ws"@
}

/// A report, only in the browser.
pub open spec fn browser_report(flavor: Flavor, notice: NoticeView) -> Seq<ActionView> {
    if flavor == Flavor::Browser {
        seq![ActionView::Report(notice)]
    } else {
        seq![]
    }
}

/// The peers mDNS discovered join floodsub's partial view and gossipsub's
/// explicit peers, one after the other, in the order they were discovered.
pub open spec fn joining(peers: Seq<Seq<u8>>) -> Seq<ActionView>
    decreases peers.len(),
{
    if peers.len() == 0 {
        seq![]
    } else {
        joining(peers.drop_last()) + seq![
            ActionView::AddFloodsubPeer { peer: peers.last() },
            ActionView::AddGossipsubPeer { peer: peers.last() },
        ]
    }
}

/// What the node does on `event`.
pub open spec fn reaction(flavor: Flavor, event: EventView) -> Seq<ActionView> {
    match event {
        EventView::GossipMessage { data, source } => seq![
            ActionView::Report(NoticeView::ReceivedGossip { data, source }),
        ],
        EventView::GossipsubOther => browser_report(flavor, NoticeView::GossipsubEvent),
        EventView::Floodsub => seq![],
        EventView::Ping => seq![],
        EventView::IncomingConnection { local_address, send_back_address } => browser_report(
            flavor,
            NoticeView::IncomingConnection { local_address, send_back_address },
        ),
        EventView::Dialing { peer } => browser_report(flavor, NoticeView::Dialing { peer }),
        EventView::ConnectionEstablished { peer } => seq![
            ActionView::AddFloodsubPeer { peer },
            ActionView::AddGossipsubPeer { peer },
        ] + browser_report(flavor, NoticeView::Connected { peer }),
        EventView::NewListenAddr { address } => if flavor == Flavor::Terminal {
            seq![ActionView::Report(NoticeView::ListeningOn { address })]
        } else {
            seq![]
        },
        EventView::PeersDiscovered { peers } => joining(peers),
        EventView::OtherSwarm => seq![],
        EventView::PeerAddress { address } => seq![ActionView::Dial { address }],
        EventView::DialFailed { error } => seq![
            ActionView::Report(NoticeView::DialFailed { error }),
        ],
        EventView::UserMessage { text } => seq![
            ActionView::PublishFloodsub { topic: floodsub_topic(), text },
            ActionView::PublishGossipsub { topic: gossipsub_topic(), text },
        ],
    }
}

/// The subscriptions the node makes when it starts, in order.
pub open spec fn subscriptions(flavor: Flavor) -> Seq<ActionView> {
    if flavor == Flavor::Browser {
        seq![
            ActionView::SubscribeFloodsub { topic: floodsub_topic() },
            ActionView::SubscribeGossipsub { topic: gossipsub_topic() },
        ]
    } else {
        seq![
            ActionView::SubscribeGossipsub { topic: gossipsub_topic() },
            ActionView::SubscribeFloodsub { topic: floodsub_topic() },
        ]
    }
}

/// What the node does when it starts, given the text of an address to dial
/// first, if any: subscribe, dial that address and, in the terminal, listen.
/// It fails when an address it needs is not a multiaddr.
pub open spec fn startup_plan(flavor: Flavor, dial_target: Option<Seq<char>>) -> Result<
    Seq<ActionView>,
    StartError,
> {
    let dial: Result<Seq<ActionView>, StartError> = match dial_target {
        None => Ok(seq![]),
        Some(target) => match multiaddr_encoding(target) {
            Some(address) => Ok(
                seq![
                    ActionView::Dial { address },
                    ActionView::Report(NoticeView::Dialed { target }),
                ],
            ),
            None => Err(StartError::InvalidDialAddress),
        },
    };
    match dial {
        Err(e) => Err(e),
        Ok(dialing) => if flavor == Flavor::Browser {
            Ok(subscriptions(flavor) + dialing)
        } else {
            match multiaddr_encoding(listen_address()) {
                Some(address) => Ok(
                    subscriptions(flavor) + dialing + seq![ActionView::ListenOn { address }],
                ),
                None => Err(StartError::InvalidListenAddress),
            }
        },
    }
}

/// A copy of a byte vector.
fn copy_bytes(bytes: &Vec<u8>) -> (copy: Vec<u8>)
    ensures
        copy@ == bytes@,
{
    let copy = bytes.clone();
    assert(copy@ =~= bytes@);
    copy
}

/// The actions for peers mDNS discovered, as `joining` states them.
fn join(peers: &Vec<Vec<u8>>) -> (actions: Vec<NodeAction>)
    ensures
        actions_view(actions@) == joining(peer_list(peers@)),
{
    let mut actions: Vec<NodeAction> = Vec::new();
    let mut i: usize = 0;
    while i < peers.len()
        invariant
            i <= peers.len(),
            actions_view(actions@) == joining(peer_list(peers@).take(i as int)),
        decreases peers.len() - i,
    {
        let ghost before = actions_view(actions@);
        actions.push(NodeAction::AddFloodsubPeer { peer: copy_bytes(&peers[i]) });
        actions.push(NodeAction::AddGossipsubPeer { peer: copy_bytes(&peers[i]) });
        let ghost taken = peer_list(peers@).take(i + 1);
        assert(taken.drop_last() =~= peer_list(peers@).take(i as int));
        assert(actions_view(actions@) =~= joining(taken));
        i = i + 1;
    }
    assert(peer_list(peers@).take(peers.len() as int) =~= peer_list(peers@));
    actions
}

/// The chat node of one front end.
pub struct ChatNode {
    flavor: Flavor,
}

impl ChatNode {
    /// The front end this node runs in.
    pub closed spec fn flavor_of(&self) -> Flavor {
        self.flavor
    }

    /// A node for the given front end.
    pub fn new(flavor: Flavor) -> (node: ChatNode)
        ensures
            node.flavor_of() == flavor,
    {
        ChatNode { flavor }
    }

    /// The settings with which the front end builds the swarm: gossipsub beats
    /// every ten seconds, forwards unsigned messages and signs the node's own
    /// with the node's key, ping keeps idle
    /// connections open, and a transport upgrade times out after ten seconds.
    pub fn settings(&self) -> (settings: Settings)
        ensures
            settings.gossip_heartbeat_secs == 10,
            settings.gossip_validation == Validation::Permissive,
            settings.gossip_authenticity == Authenticity::SignedWithLocalKey,
            settings.ping_keep_alive,
            settings.transport_timeout_secs == 10,
    {
        Settings {
            gossip_heartbeat_secs: 10,
            gossip_validation: Validation::Permissive,
            gossip_authenticity: Authenticity::SignedWithLocalKey,
            ping_keep_alive: true,
            transport_timeout_secs: 10,
        }
    }

    /// What the node does on `event`, as `reaction` states it.
    pub fn handle(&self, event: NodeEvent) -> (actions: Vec<NodeAction>)
        ensures
            actions_view(actions@) == reaction(self.flavor_of(), event@),
    {
        broadcast use vstd::string::to_string_from_display_ensures_for_str;

        let browser = self.flavor == Flavor::Browser;
        let mut actions: Vec<NodeAction> = Vec::new();
        let ghost event_view = event@;
        match event {
            NodeEvent::GossipMessage { data, source } => {
                actions.push(NodeAction::Report(Notice::ReceivedGossip { data, source }));
            },
            NodeEvent::GossipsubOther => {
                if browser {
                    actions.push(NodeAction::Report(Notice::GossipsubEvent));
                }
            },
            NodeEvent::Floodsub => {},
            NodeEvent::Ping => {},
            NodeEvent::IncomingConnection { local_address, send_back_address } => {
                if browser {
                    actions.push(
                        NodeAction::Report(
                            Notice::IncomingConnection { local_address, send_back_address },
                        ),
                    );
                }
            },
            NodeEvent::Dialing { peer } => {
                if browser {
                    actions.push(NodeAction::Report(Notice::Dialing { peer }));
                }
            },
            NodeEvent::ConnectionEstablished { peer } => {
                actions.push(NodeAction::AddFloodsubPeer { peer: copy_bytes(&peer) });
                actions.push(NodeAction::AddGossipsubPeer { peer: copy_bytes(&peer) });
                if browser {
                    actions.push(NodeAction::Report(Notice::Connected { peer }));
                }
            },
            NodeEvent::NewListenAddr { address } => {
                if !browser {
                    actions.push(NodeAction::Report(Notice::ListeningOn { address }));
                }
            },
            NodeEvent::PeersDiscovered { peers } => {
                actions = join(&peers);
            },
            NodeEvent::OtherSwarm => {},
            NodeEvent::PeerAddress { address } => {
                actions.push(NodeAction::Dial { address });
            },
            NodeEvent::DialFailed { error } => {
                actions.push(NodeAction::Report(Notice::DialFailed { error }));
            },
            NodeEvent::UserMessage { text } => {
                let copy = text.clone();
                actions.push(
                    NodeAction::PublishFloodsub { topic: "chat".to_string(), text: copy },
                );
                actions.push(
                    NodeAction::PublishGossipsub { topic: "gossip-chat".to_string(), text },
                );
            },
        }
        assert(actions_view(actions@) =~= reaction(self.flavor, event_view));
        actions
    }

    /// The subscriptions the node makes when it starts, as `subscriptions` states them.
    fn subscribe(&self) -> (actions: Vec<NodeAction>)
        ensures
            actions_view(actions@) == subscriptions(self.flavor_of()),
    {
        broadcast use vstd::string::to_string_from_display_ensures_for_str;

        let floodsub = NodeAction::SubscribeFloodsub { topic: "chat".to_string() };
        let gossipsub = NodeAction::SubscribeGossipsub { topic: "gossip-chat".to_string() };
        let actions = if self.flavor == Flavor::Browser {
            vec![floodsub, gossipsub]
        } else {
            vec![gossipsub, floodsub]
        };
        assert(actions_view(actions@) =~= subscriptions(self.flavor));
        actions
    }

    /// What the node does when it starts, as `startup_plan` states it: it
    /// subscribes to both topics, dials `dial_target` when one is given and, in
    /// the terminal, listens on `listen_address()`. It fails exactly when one
    /// of these addresses is not a multiaddr.
    pub fn startup(&self, dial_target: Option<String>) -> (started: Result<
        Vec<NodeAction>,
        StartError,
    >)
        ensures
            started is Ok <==> startup_plan(self.flavor_of(), text_of(dial_target)) is Ok,
            started matches Ok(actions) ==> startup_plan(self.flavor_of(), text_of(dial_target))
                == Ok::<Seq<ActionView>, StartError>(actions_view(actions@)),
            started matches Err(e) ==> startup_plan(self.flavor_of(), text_of(dial_target))
                == Err::<Seq<ActionView>, StartError>(e),
    {
        let ghost target = text_of(dial_target);
        let mut actions = self.subscribe();
        match dial_target {
            Some(text) => match parse_multiaddr(text.as_str()) {
                Some(address) => {
                    actions.push(NodeAction::Dial { address });
                    actions.push(NodeAction::Report(Notice::Dialed { target: text }));
                },
                None => {
                    return Err(StartError::InvalidDialAddress);
                },
            },
            None => {},
        }
        if self.flavor == Flavor::Terminal {
            match parse_multiaddr("/ip4/0.0.0.0/tcp/0/ws") {
                Some(address) => {
                    actions.push(NodeAction::ListenOn { address });
                },
                None => {
                    return Err(StartError::InvalidListenAddress);
                },
            }
        }
        assert(actions_view(actions@) =~= startup_plan(self.flavor, target)->Ok_0);
        Ok(actions)
    }
}

} // verus!
