[package]
name = "gnss_rtk"
version = "0.1.0"
edition = "2021"
publish = false

[dependencies]
gnss-rs = "2"
hifitime = "3.8"
log = "0.4"
nalgebra = "0.32"
serde = { version = "1", features = ["derive"] }
