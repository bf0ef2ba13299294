[package]
name = "netrunner_core"
version = "0.1.0"
edition = "2021"
publish = false

[dependencies]
rand = "*"
serde = { version = "*", features = ["derive"] }
serde_json = "*"
chrono = { version = "*", features = ["serde"] }
tokio = { version = "*", features = ["full"] }
reqwest = { version = "*", features = ["json", "stream"] }
futures = "*"
dirs = "*"
dns-lookup = "*"
colored = "*"
prettytable-rs = "*"
