[package]
name = "libp2p_wasm_chat"
version = "0.1.0"
edition = "2021"
publish = false

[dependencies]
libp2p = { version = "=0.52.4", features = ["async-std", "dns", "floodsub", "gossipsub", "identify", "macros", "mdns", "noise", "ping", "tcp", "websocket", "yamux", "wasm-ext", "wasm-ext-websocket"] }
futures = "=0.3.34"
wasm-bindgen = "=0.2.130"
wasm-bindgen-futures = "=0.4.80"
web-sys = { version = "=0.3.107", features = ["Window", "Document", "Element", "HtmlElement", "HtmlFormElement", "HtmlInputElement", "Event", "EventTarget"] }
gloo = { version = "=0.8.1", default-features = false, features = ["console", "timers", "file", "futures"] }
console_error_panic_hook = "=0.1.7"
rlsf = "=0.2.3"
async-std = { version = "=1.13.2", features = ["attributes"] }
