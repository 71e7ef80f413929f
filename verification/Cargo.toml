[package]
name = "scarab_client"
version = "0.1.0"
edition = "2021"
publish = false

[dependencies]
regex = "1"
base64 = "0.22"
chrono = { version = "0.4", default-features = false, features = ["alloc", "std", "clock"] }
serde = { version = "1", features = ["derive"] }
serde_json = "1"
anyhow = "1"
thiserror = "*"
log = "0.4"
open = "*"
rand = "*"
clap = { version = "4", features = ["derive"] }
crossterm = "*"
ratatui = "*"
tokio = { version = "1", features = ["full"] }
rkyv = "*"
arboard = "*"
shared_memory = "*"
