[package]
name = "tetris_for_two"
version = "0.1.0"
edition = "2021"
publish = false

[dependencies]
rand = "0.7"
crossbeam = "0.7"
serde = { version = "1", features = ["derive"] }
rmp-serde = "*"
log = "0.4"
clap = "2"
chrono = "0.4"
