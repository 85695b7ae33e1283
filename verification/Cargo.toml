[package]
name = "hyprwall"
version = "0.1.0"
edition = "2021"
publish = false

[dependencies]
rand = "*"
clap = { version = "*", features = ["derive"] }
crossbeam-channel = "*"
num_cpus = "*"
parking_lot = "*"
rayon = "*"
shellexpand = "*"
tokio = { version = "*", features = ["rt", "rt-multi-thread", "process", "time", "fs", "macros"] }
