[package]
name = "lottery_bot"
version = "0.1.0"
edition = "2021"
publish = false

[dependencies]
chrono = { version = "0.4", default-features = false, features = ["std"] }
rand = { version = "0.7", default-features = false, features = ["small_rng"] }
url = "2"
serde = { version = "1", features = ["derive"] }
serde_json = "1"
wasm-bindgen = { version = "0.2", features = ["serde-serialize"] }
wasm-bindgen-futures = "0.4"
js-sys = "0.3"
web-sys = { version = "0.3", features = ["Headers", "Request", "RequestInit", "Response", "ServiceWorkerGlobalScope", "TextDecoder", "Window", "WorkerGlobalScope"] }
uuid = { version = "1", features = ["v4"] }
