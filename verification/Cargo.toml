[package]
name = "chat_api"
version = "0.1.0"
edition = "2021"
publish = false

[dependencies]
base64 = "=0.22.1"
dioxus = { version = "=0.6.3", features = ["fullstack", "router", "server", "web"] }
futures = "0.3"
futures-util = "0.3"
katex-wasmbind = "*"
log = "0.4"
once_cell = "1"
pulldown-cmark = { version = "=0.12.2", default-features = false, features = ["html"] }
reqwest = { version = "0.12", features = ["json"] }
serde = { version = "1", features = ["derive"] }
serde_json = "1"
server_fn = "0.6"
tokio = { version = "=1.54.1", features = ["sync"] }
tokio-stream = { version = "0.1", features = ["sync"] }
urlencoding = "=2.1.3"
wasm-bindgen = "0.2"
wasm-bindgen-futures = "0.4"
web-sys = { version = "0.3", features = ["Window", "Storage", "Document", "Element", "DomTokenList"] }
