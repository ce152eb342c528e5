[package]
name = "send_pocket_to_kindle"
version = "0.1.0"
edition = "2021"
publish = false

[dependencies]
anyhow = "1"
async-trait = "0.1"
crossbeam-channel = "0.5"
dotenv = "0.15"
env_logger = "*"
envy = "0.4"
epub-builder = "*"
lettre = "0.10"
log = "0.4"
reqwest = { version = "0.11", features = ["json", "blocking"] }
serde = { version = "1", features = ["derive"] }
serde_json = "1"
shaku = "0.6"
tokio = { version = "1", features = ["fs"] }
ts-rs = "*"
