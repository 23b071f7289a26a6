[package]
name = "websys-transport"
version = "0.1.0"
edition = "2021"
publish = false

[dependencies]
async-channel = "=1.9.0"
async-std = { version = "=1.13.2", features = ["attributes"] }
clap = { version = "=4.6.7", features = ["derive"] }
console_error_panic_hook = "=0.1.7"
futures = "=0.3.34"
js-sys = "=0.3.106"
libp2p = { version = "=0.52.4", default-features = false, features = ["async-std", "dns", "ed25519", "floodsub", "macros", "noise", "tcp", "wasm-bindgen", "websocket", "yamux"] }
parking_lot = "=0.12.5"
send_wrapper = "=0.6.0"
thiserror = "=1.0.69"
wasm-bindgen = "=0.2.129"
wasm-bindgen-futures = "=0.4.79"
web-sys = { version = "=0.3.106", features = ["BinaryType", "ErrorEvent", "MessageEvent", "WebSocket"] }
