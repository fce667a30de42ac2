[package]
name = "flash_protocol"
version = "0.1.0"
edition = "2021"
publish = false

[dependencies]
sha2 = "0.10"
anyhow = "1"
clap = { version = "4", features = ["derive"] }
tokio = { version = "1", features = ["rt-multi-thread", "macros", "time", "fs", "io-util"] }
tokio-serial = "5"
indicatif = "0.17"

[dev-dependencies]
crc = "3"
crc32fast = "1"
