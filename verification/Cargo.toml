[package]
name = "chat_client"
version = "0.1.0"
edition = "2021"
publish = false

[dependencies]
log = "=0.4.34"
serde_json = { version = "=1.0.154", features = ["preserve_order"] }
web-sys = { version = "=0.3.106", features = ["HtmlInputElement", "MessageEvent", "WebSocket"] }
yew = "=0.19.3"
yew-agent = "=0.1.0"
