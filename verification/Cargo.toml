[package]
name = "machine_manager_server"
version = "0.1.0"
edition = "2021"
publish = false

[dependencies]
sha3 = "0.10"
base64 = "0.13"
log = "0.4"
env_logger = "0.10"
getopts = "0.2"
tokio = { version = "1", features = ["rt-multi-thread", "macros", "time"] }
async-mutex = "1"
async-trait = "0.1"
tonic = "0.9"
