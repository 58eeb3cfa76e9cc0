[package]
name = "charity_pbm"
version = "0.1.0"
edition = "2021"
publish = false

[dependencies]
ethers-core = "=2.0.14"
ethers-signers = "=2.0.14"
serde = { version = "1", features = ["derive"] }
serde_json = "1"
uuid = { version = "1", features = ["v4"] }
csv = "1"
time = "0.3"
log = "0.4"
webhook-flows = "0.4.4"
store-flows = "0.3.2"
flowsnet-platform-sdk = "0.1.6"
sendgrid = { version = "*", default-features = false }
reqwest = { version = "*", default-features = false }
tokio = { version = "1", features = ["rt", "macros", "time"] }
twilio_wasi = "*"
