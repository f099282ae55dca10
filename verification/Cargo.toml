[package]
name = "oddscalc"
version = "0.1.0"
edition = "2021"
publish = false

[dependencies]
chrono = "=0.4.45"
clap = { version = "=4.6.7", features = ["derive"] }
color-eyre = "=0.6.5"
statrs = "=0.19.1"
v_utils = { version = "=2.21.0", default-features = false }
