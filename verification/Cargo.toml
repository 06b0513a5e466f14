[package]
name = "podcast_search"
version = "0.1.0"
edition = "2021"
publish = false

[dependencies]
anyhow = "=1.0.104"
async-std = "=1.13.2"
chrono = { version = "=0.4.45", default-features = false, features = ["std"] }
gloo-net = "=0.5.0"
rss = { version = "=2.1.2", default-features = false }
serde = { version = "=1.0.229", features = ["derive"] }
serde_json = "=1.0.154"
urlencoding = "=2.1.3"
wasm-bindgen = "=0.2.129"
wasm-bindgen-futures = "=0.4.79"
web-sys = { version = "=0.3.106", features = ["Document", "DomTokenList", "Element", "Event", "EventTarget", "HtmlElement", "HtmlInputElement", "HtmlSelectElement", "InputEvent", "MouseEvent", "SubmitEvent", "Window", "console"] }
yew = { version = "=0.21.0", features = ["csr"] }
yew-router = "=0.18.0"
yewdux = "0.11"
