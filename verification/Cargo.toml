[package]
name = "rustyray"
version = "0.1.0"
edition = "2021"
publish = false

[dependencies]
serde = { version = "1", features = ["derive"] }
bincode = { version = "2", features = ["serde"] }
bytes = "1"
clru = "0.6"
dashmap = "6"
tokio = { version = "1", features = ["full"] }
async-trait = "0.1"
linkme = "0.3"
syn = { version = "2", features = ["full"] }
quote = "1"
proc-macro2 = "1"
darling = "0.20"
