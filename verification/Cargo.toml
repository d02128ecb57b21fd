[package]
name = "barr"
version = "0.1.0"
edition = "2021"
publish = false

[dependencies]
async-std = "=1.13.2"
battery = "0.7"
chrono = { version = "=0.4.45", default-features = false, features = ["clock"] }
notify-rust = "4"
psutil = { version = "=5.4.0", default-features = false, features = ["cpu"] }
smol = "=2.0.2"
sysinfo = { version = "=0.39.6", default-features = false, features = ["system"] }
