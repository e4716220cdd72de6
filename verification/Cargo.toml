[package]
name = "cosm_orc"
version = "0.1.0"
edition = "2021"
publish = false

[dependencies]
anyhow = "=1.0.104"
backtrace = "=0.3.76"
bip32 = { version = "=0.5.3", features = ["bip39"] }
config = "=0.15.27"
cosmos-sdk-proto = { version = "=0.27.0", features = ["cosmwasm", "grpc-transport"] }
cosmrs = { version = "=0.22.0", features = ["cosmwasm", "rpc"] }
erased-serde = "=0.4.10"
keyring = "=4.2.0"
log = "=0.4.34"
prost = "=0.13.5"
rand = "=0.8.8"
serde = { version = "=1.0.229", features = ["derive"] }
serde_json = "=1.0.154"
tendermint-rpc = { version = "=0.40.4", features = ["http-client"] }
thiserror = "=1.0.69"
tokio = { version = "=1.54.1", features = ["rt", "time"] }
tonic = "=0.13.1"
