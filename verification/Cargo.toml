[package]
name = "subgrid"
version = "0.1.0"
edition = "2021"
publish = false

[dependencies]
axum = "0.7"
gloo-net = "0.6"
js-sys = "0.3"
leptos = "0.7"
leptos_axum = "0.7"
reqwest = { version = "0.12", default-features = false, features = ["json", "rustls-tls"] }
serde = { version = "1", features = ["derive"] }
serde_json = "1"
tokio = { version = "1", features = ["macros", "rt-multi-thread", "net"] }
tower-http = { version = "0.6", features = ["cors"] }
web-sys = { version = "0.3", features = ["Document", "Element", "HtmlElement", "Window"] }
