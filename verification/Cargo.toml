[package]
name = "lazy_susan"
version = "0.1.0"
edition = "2021"
publish = false

[dependencies]
atom_syndication = "=0.12.10"
chrono = "=0.4.45"
pulldown-cmark = "=0.13.4"
sha2 = "=0.10.9"
hyper = { version = "1", features = ["http1", "server"] }
hyper-util = { version = "0.1", features = ["tokio"] }
http-body-util = "0.1"
tokio = { version = "1", features = ["rt-multi-thread", "net", "macros", "sync"] }
serde = { version = "1", features = ["derive"] }
serde_json = "1"
dotenvy = "0.15"
env_logger = "0.11"
log = "0.4"
