[package]
name = "bulkmail"
version = "0.1.0"
edition = "2021"
publish = false

[dependencies]
alloy = { version = "0.2", default-features = false, features = ["std", "consensus", "network", "providers", "provider-ws", "pubsub", "signer-local"] }
chrono = { version = "0.4", default-features = false, features = ["now"] }
futures = "0.3"
log = "0.4"
thiserror = "1"
tokio = { version = "1", features = ["sync", "macros", "rt-multi-thread", "time"] }
web3 = { version = "0.19", default-features = false }
