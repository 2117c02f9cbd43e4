[package]
name = "threshold_decryption"
version = "0.1.0"
edition = "2021"
publish = false

[dependencies]
threshold_crypto = "=0.4.0"
ring = "=0.17.14"
bincode = "=1.3.3"
rand = "=0.7.3"
base64 = "=0.23.1"
amqprs = "=2.1.5"
tokio = { version = "=1.53.2", features = ["macros", "net", "io-util", "rt-multi-thread", "sync", "time"] }
async-trait = "=0.1.92"
serde = { version = "*", features = ["derive"] }
serde_json = "*"
governor = "*"
