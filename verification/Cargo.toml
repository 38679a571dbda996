[package]
name = "crypto_normalizer"
version = "0.1.0"
edition = "2021"
publish = false

[dependencies]
chrono = "=0.4.45"
crypto-market-type = "=1.1.6"
crypto-message = "=1.1.21"
crypto-msg-type = "=1.0.12"
once_cell = "=1.21.4"
# crypto-message 1.1.21 holds code that protobuf 3.5.0 generated; it builds
# with that version of protobuf and with no later one.
protobuf = "=3.5.0"
reqwest = { version = "=0.11.27", features = ["blocking", "gzip"] }
serde = { version = "=1.0.229", features = ["derive"] }
serde_json = "=1.0.154"
simple-error = "=0.3.3"
