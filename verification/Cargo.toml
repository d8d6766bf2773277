[package]
name = "tdx_workload_attestation"
version = "0.1.0"
edition = "2021"
publish = false

[dependencies]
clap = { version = "4", features = ["derive"] }
hex = "0.4"
openssl = "0.10"
pagemap = "*"
protobuf = "3"
serde = { version = "1", features = ["derive"] }
serde-big-array = "0.5"
serde_json = "1"
thiserror = "*"
vmm-sys-util = "*"
x86_64 = { version = "*", default-features = false }

[dev-dependencies]
rand = "0.9"
