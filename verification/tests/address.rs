use libp2p_wasm_chat::address::{add_peer, submit_peer_address, PeerSubmission};

const LOCAL_WS: &str = "/ip4/127.0.0.1/tcp/24915";

#[test]
fn add_peer_refuses_a_value_that_is_not_a_string() {
    assert_eq!(add_peer(None), Err("Input is not a string".to_string()));
}

#[test]
fn add_peer_refuses_text_that_is_not_a_multiaddr() {
    assert_eq!(add_peer(Some("hello".to_string())), Err("Not a valid multiaddr".to_string()));
}

#[test]
fn add_peer_refuses_an_unknown_protocol() {
    assert_eq!(
        add_peer(Some("/carrier-pigeon/7".to_string())),
        Err("Not a valid multiaddr".to_string())
    );
}

#[test]
fn add_peer_refuses_a_lone_slash() {
    assert_eq!(add_peer(Some("/".to_string())), Err("Not a valid multiaddr".to_string()));
}

#[test]
fn add_peer_refuses_a_trailing_slash() {
    assert_eq!(
        add_peer(Some("/ip4/127.0.0.1/".to_string())),
        Err("Not a valid multiaddr".to_string())
    );
}

#[test]
fn add_peer_accepts_a_multiaddr() {
    assert_eq!(add_peer(Some(LOCAL_WS.to_string())), Ok(()));
    assert_eq!(add_peer(Some("/ip4/0.0.0.0/tcp/0/ws".to_string())), Ok(()));
}

#[test]
fn add_peer_accepts_the_empty_text() {
    assert_eq!(add_peer(Some(String::new())), Ok(()));
}

#[test]
fn peer_form_forwards_the_binary_encoding() {
    // ip4 (code 4) 127.0.0.1, tcp (code 6) port 24915 = 0x6153
    assert_eq!(
        submit_peer_address(LOCAL_WS),
        PeerSubmission::Forward(vec![4, 127, 0, 0, 1, 6, 0x61, 0x53])
    );
}

#[test]
fn peer_form_forwards_a_websocket_address() {
    // ws has code 477, a two-byte varint
    assert_eq!(
        submit_peer_address("/ip4/0.0.0.0/tcp/0/ws"),
        PeerSubmission::Forward(vec![4, 0, 0, 0, 0, 6, 0, 0, 0xdd, 0x03])
    );
}

#[test]
fn peer_form_rejects_what_add_peer_refuses() {
    for text in ["hello", "/", "ip4/127.0.0.1", "/ip4/300.0.0.1", "/tcp/notaport"] {
        assert_eq!(submit_peer_address(text), PeerSubmission::Reject);
        assert!(add_peer(Some(text.to_string())).is_err());
    }
}

#[test]
fn peer_form_forwards_the_empty_text_as_the_empty_address() {
    assert_eq!(submit_peer_address(""), PeerSubmission::Forward(vec![]));
}
