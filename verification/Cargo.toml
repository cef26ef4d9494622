[package]
name = "jitsi_meet_signalling"
version = "0.1.0"
edition = "2021"
publish = false

[dependencies]
anyhow = "1"
async-trait = "0.1"
base64 = "=0.21.7"
colibri = "=0.2.0"
futures = "0.3"
jitsi-jingle-sdp = "=0.2.0"
jitsi-xmpp-parsers = "=0.1.4"
once_cell = "1"
rand = "=0.8.8"
serde = { version = "1", features = ["derive"] }
serde_json = "=1.0.154"
tokio = { version = "1", features = ["sync", "rt", "macros", "time"] }
tokio-stream = "0.1"
tokio-tungstenite = { version = "=0.18.0", features = ["rustls-tls-webpki-roots"] }
tracing = "0.1"
uuid = { version = "=1.29.0", features = ["v4"] }
xmpp-parsers = "=0.19.2"
rustls = { version = "0.20", features = ["dangerous_configuration"] }
