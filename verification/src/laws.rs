//! Properties of the chat node that hold over every event and every front end.
use crate::address::{add_peer_answer, multiaddr_encoding, peer_submission_outcome};
use crate::node::{
    floodsub_topic, gossipsub_topic, joining, listen_address, reaction, startup_plan,
    subscriptions, ActionView, EventView, Flavor, NoticeView, StartError,
};
use vstd::prelude::*;

verus! {

/// Whether `action` publishes `text` on the topic that `subscription` subscribes to,
/// over the same protocol.
pub open spec fn publishes_to(action: ActionView, subscription: ActionView, text: Seq<char>) -> bool {
    match (subscription, action) {
        (ActionView::SubscribeFloodsub { topic }, ActionView::PublishFloodsub { topic: t, text: x }) =>
            t == topic && x == text,
        (ActionView::SubscribeGossipsub { topic }, ActionView::PublishGossipsub { topic: t, text: x }) =>
            t == topic && x == text,
        _ => false,
    }
}

/// Whether an action publishes something.
pub open spec fn is_publish(action: ActionView) -> bool {
    action is PublishFloodsub || action is PublishGossipsub
}

/// The text an action publishes.
pub open spec fn published_text(action: ActionView) -> Seq<char> {
    match action {
        ActionView::PublishFloodsub { text, .. } => text,
        ActionView::PublishGossipsub { text, .. } => text,
        _ => Seq::empty(),
    }
}

/// Whether an action adds a peer to floodsub or to gossipsub.
pub open spec fn is_add_peer(action: ActionView) -> bool {
    action is AddFloodsubPeer || action is AddGossipsubPeer
}

/// The peer an action adds.
pub open spec fn added_peer(action: ActionView) -> Seq<u8> {
    match action {
        ActionView::AddFloodsubPeer { peer } => peer,
        ActionView::AddGossipsubPeer { peer } => peer,
        _ => Seq::empty(),
    }
}

/// The actions for discovered peers: each peer in turn joins floodsub, then gossipsub.
proof fn lemma_joining_layout(peers: Seq<Seq<u8>>)
    ensures
        joining(peers).len() == 2 * peers.len(),
        forall|k: int| #![trigger peers[k]] 0 <= k < peers.len() ==> joining(peers)[2 * k]
            == (ActionView::AddFloodsubPeer { peer: peers[k] }) && joining(peers)[2 * k + 1]
            == (ActionView::AddGossipsubPeer { peer: peers[k] }),
    decreases peers.len(),
{
    if peers.len() > 0 {
        let rest = peers.drop_last();
        lemma_joining_layout(rest);
        assert forall|k: int| #![trigger peers[k]] 0 <= k < peers.len() implies joining(peers)[2
            * k] == (ActionView::AddFloodsubPeer { peer: peers[k] }) && joining(peers)[2 * k + 1]
            == (ActionView::AddGossipsubPeer { peer: peers[k] }) by {
            if k < rest.len() {
                assert(rest[k] == peers[k]);
            }
        }
    }
}

/// The actions for discovered peers only add discovered peers.
proof fn lemma_joining_adds_discovered(peers: Seq<Seq<u8>>)
    ensures
        forall|i: int| #![trigger joining(peers)[i]] 0 <= i < joining(peers).len() ==> is_add_peer(
            joining(peers)[i],
        ) && peers.contains(added_peer(joining(peers)[i])),
    decreases peers.len(),
{
    if peers.len() > 0 {
        let rest = peers.drop_last();
        lemma_joining_adds_discovered(rest);
        assert forall|i: int| #![trigger joining(peers)[i]] 0 <= i < joining(peers).len()
            implies is_add_peer(joining(peers)[i]) && peers.contains(
            added_peer(joining(peers)[i]),
        ) by {
            if i < joining(rest).len() {
                assert(joining(peers)[i] == joining(rest)[i]);
                let k = choose|k: int| 0 <= k < rest.len() && rest[k] == added_peer(joining(rest)[i]);
                assert(peers[k] == rest[k]);
            } else {
                assert(peers[peers.len() - 1] == added_peer(joining(peers)[i]));
            }
        }
    }
}

/// Peer-list events cause only peer additions.
proof fn lemma_peer_list_events(flavor: Flavor, event: EventView)
    ensures
        event is PeersDiscovered ==> forall|i: int|
            0 <= i < reaction(flavor, event).len() ==> is_add_peer(
                #[trigger] reaction(flavor, event)[i],
            ),
{
    match event {
        EventView::PeersDiscovered { peers } => lemma_joining_adds_discovered(peers),
        _ => {},
    }
}

/// The actions of a sequence that act on the swarm, reports left out.
pub open spec fn swarm_actions(actions: Seq<ActionView>) -> Seq<ActionView> {
    actions.filter(|a: ActionView| !(a is Report))
}

/// A message the user types is published, unchanged, on every topic the node
/// subscribed to when it started, and on no other topic.
pub proof fn law_message_reaches_every_subscribed_topic(flavor: Flavor, text: Seq<char>)
    ensures
        ({
            let published = reaction(flavor, EventView::UserMessage { text });
            let subscribed = subscriptions(flavor);
            &&& forall|j: int| #![trigger subscribed[j]] 0 <= j < subscribed.len() ==> exists|i: int|
                0 <= i < published.len() && #[trigger] publishes_to(published[i], subscribed[j], text)
            &&& forall|i: int| #![trigger published[i]] 0 <= i < published.len() ==> exists|j: int|
                0 <= j < subscribed.len() && #[trigger] publishes_to(published[i], subscribed[j], text)
        }),
{
    let published = reaction(flavor, EventView::UserMessage { text });
    let subscribed = subscriptions(flavor);
    if flavor == Flavor::Browser {
        assert(publishes_to(published[0], subscribed[0], text));
        assert(publishes_to(published[1], subscribed[1], text));
    } else {
        assert(publishes_to(published[0], subscribed[1], text));
        assert(publishes_to(published[1], subscribed[0], text));
    }
}

/// The node publishes only what the user typed: every publishing action comes
/// from a message the user typed, and publishes that message.
pub proof fn law_only_typed_messages_are_published(flavor: Flavor, event: EventView, i: int)
    requires
        0 <= i < reaction(flavor, event).len(),
        is_publish(reaction(flavor, event)[i]),
    ensures
        event matches EventView::UserMessage { text } && published_text(
            reaction(flavor, event)[i],
        ) == text,
{
    lemma_peer_list_events(flavor, event);
}

/// A peer the node got connected to joins both floodsub's partial view and
/// gossipsub's explicit peers, and no other peer is added.
pub proof fn law_connected_peer_joins_both_protocols(flavor: Flavor, peer: Seq<u8>)
    ensures
        ({
            let actions = reaction(flavor, EventView::ConnectionEstablished { peer });
            &&& actions.contains(ActionView::AddFloodsubPeer { peer })
            &&& actions.contains(ActionView::AddGossipsubPeer { peer })
            &&& forall|i: int| 0 <= i < actions.len() && is_add_peer(#[trigger] actions[i])
                ==> added_peer(actions[i]) == peer
        }),
{
    let actions = reaction(flavor, EventView::ConnectionEstablished { peer });
    assert(actions[0] == ActionView::AddFloodsubPeer { peer });
    assert(actions[1] == ActionView::AddGossipsubPeer { peer });
}

/// Peers are added to the protocols only when a connection to them is
/// established or when mDNS discovers them.
pub proof fn law_peers_added_only_on_connection_or_discovery(
    flavor: Flavor,
    event: EventView,
    i: int,
)
    requires
        0 <= i < reaction(flavor, event).len(),
        is_add_peer(reaction(flavor, event)[i]),
    ensures
        (event matches EventView::ConnectionEstablished { peer } && added_peer(
            reaction(flavor, event)[i],
        ) == peer) || (event matches EventView::PeersDiscovered { peers } && peers.contains(
            added_peer(reaction(flavor, event)[i]),
        )),
{
    if let EventView::PeersDiscovered { peers } = event {
        lemma_joining_adds_discovered(peers);
    }
}

/// Every peer mDNS discovers on the local network joins both floodsub's
/// partial view and gossipsub's explicit peers, so the node connects to it
/// without being told an address.
pub proof fn law_discovered_peers_join_both_protocols(
    flavor: Flavor,
    peers: Seq<Seq<u8>>,
    k: int,
)
    requires
        0 <= k < peers.len(),
    ensures
        reaction(flavor, EventView::PeersDiscovered { peers }).contains(
            ActionView::AddFloodsubPeer { peer: peers[k] },
        ),
        reaction(flavor, EventView::PeersDiscovered { peers }).contains(
            ActionView::AddGossipsubPeer { peer: peers[k] },
        ),
{
    lemma_joining_layout(peers);
    assert(joining(peers)[2 * k] == (ActionView::AddFloodsubPeer { peer: peers[k] }));
    assert(joining(peers)[2 * k + 1] == (ActionView::AddGossipsubPeer { peer: peers[k] }));
}

/// The node dials only addresses the user submitted, and dials them as submitted.
pub proof fn law_only_submitted_addresses_are_dialed(
    flavor: Flavor,
    event: EventView,
    i: int,
    address: Seq<u8>,
)
    requires
        0 <= i < reaction(flavor, event).len(),
        reaction(flavor, event)[i] == (ActionView::Dial { address }),
    ensures
        event == (EventView::PeerAddress { address }),
{
    lemma_peer_list_events(flavor, event);
}

/// A received gossipsub message is shown with its data and author as received,
/// in both front ends, and causes nothing else.
pub proof fn law_received_message_shown_unchanged(
    flavor: Flavor,
    data: Seq<u8>,
    source: Option<Seq<u8>>,
)
    ensures
        reaction(flavor, EventView::GossipMessage { data, source }) == seq![
            ActionView::Report(NoticeView::ReceivedGossip { data, source }),
        ],
{
}

/// The browser and the terminal act alike on the swarm: for every event, the
/// actions other than reports are the same in both front ends.
pub proof fn law_front_ends_act_alike(event: EventView)
    ensures
        swarm_actions(reaction(Flavor::Browser, event)) == swarm_actions(
            reaction(Flavor::Terminal, event),
        ),
{
    reveal_with_fuel(Seq::filter, 4);
    let browser = reaction(Flavor::Browser, event);
    let terminal = reaction(Flavor::Terminal, event);
    match event {
        EventView::ConnectionEstablished { peer } => {
            let both = seq![
                ActionView::AddFloodsubPeer { peer },
                ActionView::AddGossipsubPeer { peer },
            ];
            assert(terminal =~= both);
            assert(browser.drop_last() =~= both);
            assert(swarm_actions(browser) =~= swarm_actions(terminal));
        },
        _ => {
            assert(swarm_actions(browser) =~= swarm_actions(terminal));
        },
    }
}

/// The peer form and `add_peer` agree: the form forwards a text to be dialed
/// exactly when `add_peer` accepts that text.
pub proof fn law_peer_form_agrees_with_add_peer(text: Seq<char>)
    ensures
        peer_submission_outcome(text) is Some <==> add_peer_answer(Some(text)) is Ok,
{
}

/// The browser node always starts when no address is given to dial: it
/// subscribes to both topics and does nothing else.
pub proof fn law_browser_start_never_fails()
    ensures
        startup_plan(Flavor::Browser, None) == Ok::<Seq<ActionView>, crate::node::StartError>(
            subscriptions(Flavor::Browser),
        ),
{
    assert(subscriptions(Flavor::Browser) + seq![] =~= subscriptions(Flavor::Browser));
}

/// On startup the node dials nothing but the address it was given, as that
/// address parses.
pub proof fn law_startup_dials_only_the_target(
    flavor: Flavor,
    target: Option<Seq<char>>,
    i: int,
    address: Seq<u8>,
)
    requires
        startup_plan(flavor, target) is Ok,
        0 <= i < startup_plan(flavor, target)->Ok_0.len(),
        startup_plan(flavor, target)->Ok_0[i] == (ActionView::Dial { address }),
    ensures
        target matches Some(text) && crate::address::multiaddr_encoding(text) == Some(address),
{
    let plan = startup_plan(flavor, target)->Ok_0;
    let subs = subscriptions(flavor);
    assert(!(subs[0] is Dial) && !(subs[1] is Dial));
    if i >= 2 {
        match target {
            Some(text) => {},
            None => {
                if flavor == Flavor::Terminal {
                    assert(plan[i] is ListenOn);
                }
            },
        }
    }
}

/// A message the user types is published exactly once on each topic the node
/// subscribed to: as many publications as subscriptions, and no two of them on
/// the same subscribed topic.
pub proof fn law_message_published_once_per_topic(flavor: Flavor, text: Seq<char>)
    ensures
        ({
            let published = reaction(flavor, EventView::UserMessage { text });
            let subscribed = subscriptions(flavor);
            &&& published.len() == subscribed.len()
            &&& forall|i: int, j: int, k: int|
                0 <= i < published.len() && 0 <= j < published.len() && 0 <= k < subscribed.len()
                    && #[trigger] publishes_to(published[i], subscribed[k], text)
                    && #[trigger] publishes_to(published[j], subscribed[k], text) ==> i == j
        }),
{
}

/// The published text is the typed text, on the floodsub topic `chat` and the
/// gossipsub topic `gossip-chat`, in both front ends.
pub proof fn law_message_published_on_chat_topics(flavor: Flavor, text: Seq<char>)
    ensures
        reaction(flavor, EventView::UserMessage { text }).contains(
            ActionView::PublishFloodsub { topic: "chat"@, text },
        ),
        reaction(flavor, EventView::UserMessage { text }).contains(
            ActionView::PublishGossipsub { topic: "gossip-chat"@, text },
        ),
{
    assert(reaction(flavor, EventView::UserMessage { text })[0] == ActionView::PublishFloodsub {
        topic: "chat"@,
        text,
    });
    assert(reaction(flavor, EventView::UserMessage { text })[1] == ActionView::PublishGossipsub {
        topic: "gossip-chat"@,
        text,
    });
}

/// Every address the user submits is dialed, exactly as submitted, and nothing
/// else happens.
pub proof fn law_submitted_address_is_dialed(flavor: Flavor, address: Seq<u8>)
    ensures
        reaction(flavor, EventView::PeerAddress { address }).len() == 1,
        reaction(flavor, EventView::PeerAddress { address })[0] == (ActionView::Dial { address }),
{
}

/// The terminal reports every address the swarm listens on, exactly as
/// reported by the swarm; the browser reports none.
pub proof fn law_terminal_reports_every_listen_address(address: Seq<u8>)
    ensures
        reaction(Flavor::Terminal, EventView::NewListenAddr { address }) == seq![
            ActionView::Report(NoticeView::ListeningOn { address }),
        ],
        reaction(Flavor::Browser, EventView::NewListenAddr { address }).len() == 0,
{
}

/// The browser reports incoming connections, dials and other gossipsub events
/// with their data as received; the terminal ignores them. A failed dial is
/// reported with its reason in both front ends.
pub proof fn law_swarm_events_reported_as_received(
    local_address: Seq<u8>,
    send_back_address: Seq<u8>,
    peer: Option<Seq<u8>>,
    error: Seq<char>,
)
    ensures
        reaction(Flavor::Browser, EventView::IncomingConnection { local_address, send_back_address })
            == seq![
            ActionView::Report(NoticeView::IncomingConnection { local_address, send_back_address }),
        ],
        reaction(Flavor::Browser, EventView::Dialing { peer }) == seq![
            ActionView::Report(NoticeView::Dialing { peer }),
        ],
        reaction(Flavor::Browser, EventView::GossipsubOther) == seq![
            ActionView::Report(NoticeView::GossipsubEvent),
        ],
        reaction(Flavor::Terminal, EventView::IncomingConnection { local_address, send_back_address })
            .len() == 0,
        reaction(Flavor::Terminal, EventView::Dialing { peer }).len() == 0,
        reaction(Flavor::Terminal, EventView::GossipsubOther).len() == 0,
        forall|flavor: Flavor| #[trigger] reaction(flavor, EventView::DialFailed { error }) == seq![
            ActionView::Report(NoticeView::DialFailed { error }),
        ],
{
}

/// Floodsub, ping and other swarm events cause nothing.
pub proof fn law_quiet_events_cause_nothing(flavor: Flavor)
    ensures
        reaction(flavor, EventView::Floodsub).len() == 0,
        reaction(flavor, EventView::Ping).len() == 0,
        reaction(flavor, EventView::OtherSwarm).len() == 0,
{
}

/// Whether a start can go ahead: the address to listen on parses wherever
/// the node listens (the terminal).
pub open spec fn can_listen(flavor: Flavor) -> bool {
    flavor == Flavor::Browser || multiaddr_encoding(listen_address()) is Some
}

/// The address given at startup is always dialed when it is a multiaddr:
/// the start succeeds (where the node can listen), and the dial of its
/// encoding comes, followed by the report that it was dialed.
pub proof fn law_startup_dials_the_given_address(
    flavor: Flavor,
    target: Seq<char>,
    address: Seq<u8>,
)
    requires
        multiaddr_encoding(target) == Some(address),
        can_listen(flavor),
    ensures
        startup_plan(flavor, Some(target)) is Ok,
        exists|i: int|
            0 <= i && i + 1 < startup_plan(flavor, Some(target))->Ok_0.len()
                && #[trigger] startup_plan(flavor, Some(target))->Ok_0[i] == (ActionView::Dial {
                address,
            }) && startup_plan(flavor, Some(target))->Ok_0[i + 1] == (ActionView::Report(
                NoticeView::Dialed { target },
            )),
{
    let plan = startup_plan(flavor, Some(target))->Ok_0;
    assert(plan[2] == (ActionView::Dial { address }));
    assert(plan[3] == (ActionView::Report(NoticeView::Dialed { target })));
}

/// A start fails exactly when an address it needs is not a multiaddr: the
/// given address first, then the terminal's listen address.
pub proof fn law_startup_fails_only_on_bad_addresses(flavor: Flavor, target: Option<Seq<char>>)
    ensures
        startup_plan(flavor, target) is Ok <==> (can_listen(flavor) && (target matches Some(t)
            ==> multiaddr_encoding(t) is Some)),
        (target matches Some(t) && multiaddr_encoding(t) is None) ==> startup_plan(flavor, target)
            == Err::<Seq<ActionView>, StartError>(StartError::InvalidDialAddress),
{
}

/// The terminal started without an address subscribes to both chat topics and
/// listens on `/ip4/0.0.0.0/tcp/0/ws`, as that address parses.
pub proof fn law_terminal_start_listens(listen: Seq<u8>)
    requires
        multiaddr_encoding("/ip4/0.0.0.0/tcp/0/ws"@) == Some(listen),
    ensures
        startup_plan(Flavor::Terminal, None) == Ok::<Seq<ActionView>, StartError>(
            seq![
                ActionView::SubscribeGossipsub { topic: "gossip-chat"@ },
                ActionView::SubscribeFloodsub { topic: "chat"@ },
                ActionView::ListenOn { address: listen },
            ],
        ),
{
    assert(seq![
        ActionView::SubscribeGossipsub { topic: gossipsub_topic() },
        ActionView::SubscribeFloodsub { topic: floodsub_topic() },
    ] + seq![] + seq![ActionView::ListenOn { address: listen }] =~= seq![
        ActionView::SubscribeGossipsub { topic: "gossip-chat"@ },
        ActionView::SubscribeFloodsub { topic: "chat"@ },
        ActionView::ListenOn { address: listen },
    ]);
}

/// The peer form forwards exactly libp2p's encoding of the text it was given,
/// and rejects exactly the texts libp2p refuses.
pub proof fn law_peer_form_forwards_the_encoding(text: Seq<char>)
    ensures
        peer_submission_outcome(text) == multiaddr_encoding(text),
{
}

/// `add_peer` refuses a value that is not a string with "Input is not a
/// string", accepts a string exactly when libp2p parses it, and refuses any
/// other string with "Not a valid multiaddr".
pub proof fn law_add_peer_answers(text: Seq<char>)
    ensures
        add_peer_answer(None) == Err::<(), Seq<char>>("Input is not a string"@),
        multiaddr_encoding(text) is Some ==> add_peer_answer(Some(text)) == Ok::<(), Seq<char>>(()),
        multiaddr_encoding(text) is None ==> add_peer_answer(Some(text)) == Err::<(), Seq<char>>(
            "Not a valid multiaddr"@,
        ),
{
}

} // verus!
