[package]
name = "sword_arena"
version = "0.1.0"
edition = "2021"
publish = false

[dependencies]
rand = "=0.8.8"
dotenv = "=0.15.0"
eyre = "=0.6.14"
tokio = { version = "=1.54.1", features = ["rt", "rt-multi-thread", "time"] }
ethers = "2.0"
