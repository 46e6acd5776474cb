[package]
name = "oxidgb_core"
version = "0.1.0"
edition = "2021"
publish = false

[dependencies]
bincode = "1.3"
chrono = "0.4"
clap = "4"
fern = "0.6"
log = "0.4"
rustyline = "*"
serde = { version = "1", features = ["derive"] }
