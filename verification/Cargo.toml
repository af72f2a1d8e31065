[package]
name = "etherscan_abi_downloader"
version = "0.1.0"
edition = "2021"
publish = false

[dependencies]
alloy-chains = "*"
alloy-json-abi = "*"
alloy-primitives = "*"
anyhow = "1"
clap = { version = "4", features = ["derive"] }
configparser = "3"
env_logger = "*"
foundry-block-explorers = "*"
hex = "0.4"
log = "0.4"
tiny-keccak = { version = "2", features = ["keccak"] }
tokio = { version = "1", features = ["rt-multi-thread", "macros", "time"] }
