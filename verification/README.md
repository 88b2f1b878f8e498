# libp2p_wasm_chat

A peer-to-peer chat over libp2p floodsub and gossipsub, with a browser front
end (compiled to WebAssembly) and a terminal front end.

- `src/` is the verified library:
  - `address.rs`: peer addresses typed by the user, parsed by libp2p's
    multiaddr parser; `add_peer` and the peer form's decision.
  - `node.rs`: the chat node as a state machine over plain values: the
    settings, the startup actions, and the actions for each network event or
    user input (`ChatNode::handle`), including peers that mDNS discovers on
    the local network (the terminal runs mDNS; the browser cannot).
  - `laws.rs`: properties that hold over every event and front end.
- `app/` is the unverified shell: the JavaScript chat handle, DOM wiring, console output, the libp2p swarm
  and its event loop (`lib.rs` for the browser, `server.rs` for the terminal,
  whose `main` runs the node).
- `tests/` runs the library on concrete values.
