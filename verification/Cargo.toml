[package]
name = "packet_ingest"
version = "0.1.0"
edition = "2021"
publish = false

[dependencies]
async-stream = "=0.3.6"
chrono = "=0.4.45"
dotenv = "=0.15.0"
env_logger = "=0.11.11"
futures = "=0.3.34"
futures-util = "=0.3.34"
influxdb2 = { version = "=0.5.2", default-features = false, features = ["rustls", "gzip"] }
log = "=0.4.34"
pcap = "=2.5.0"
serde = { version = "=1.0.229", features = ["derive"] }
serde_json = "=1.0.154"
thiserror = "=2.0.21"
tokio = { version = "=1.54.1", features = ["rt-multi-thread", "macros", "sync", "time"] }
warp = "=0.3.7"
