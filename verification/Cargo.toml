[package]
name = "scan_stream"
version = "0.1.0"
edition = "2021"
publish = false

[dependencies]
serde_json = "1"
wasm-bindgen = "0.2"
web-sys = { version = "0.3", features = ["EventSource", "EventSourceInit", "MessageEvent", "Performance", "Window"] }
yew = { version = "0.16", features = ["web_sys"] }
