[package]
name = "build_info_format"
version = "0.1.0"
edition = "2021"
publish = false

[dependencies]
cargo_metadata = "*"
chrono = { version = "0.4", default-features = false, features = ["std", "serde"] }
num-bigint = "0.4"
num-traits = "0.2"
proc-macro2 = "1"
quote = "1"
semver = { version = "1", features = ["serde"] }
serde = { version = "1", features = ["derive"] }
serde_json = "1"
syn = { version = "2", features = ["full"] }
