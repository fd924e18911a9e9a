[package]
name = "feal_analysis"
version = "0.1.0"
edition = "2021"
publish = false

[dependencies]
gloo-console = "0.2"
gloo-net = "0.2"
serde = { version = "1", features = ["derive"] }
wasm-bindgen = "0.2"
wasm-bindgen-futures = "0.4"
web-sys = { version = "0.3", features = ["HtmlInputElement", "KeyboardEvent"] }
yew = { version = "0.20", features = ["csr"] }
