[package]
name = "zoocarp"
version = "0.1.0"
edition = "2021"
publish = false

[dependencies]
uuid = { version = "=1.27.0", features = ["v4"] }
chrono = "=0.4.45"
apca = "=0.31.0"
num-decimal = { version = "=0.2.5", default-features = false, features = ["num-v04", "serde"] }
serde = { version = "=1.0.229", features = ["derive"] }
serde_json = "=1.0.151"
tokio = { version = "=1.53.2", features = ["macros", "rt-multi-thread"] }
axum = "=0.8.9"
async-channel = "=2.5.0"
async-trait = "=0.1.92"
futures = "=0.3.34"
futures-util = "=0.3.34"
tokio-tungstenite = "=0.26.2"
tungstenite = "=0.26.2"
url = "=2.5.8"
dotenvy = "=0.15.7"
tracing = "=0.1.44"
tracing-subscriber = "=0.3.23"
tower-http = { version = "=0.7.1", features = ["cors"] }
ezsockets = "=0.7.2"
