[package]
name = "kicad_wakatime"
version = "0.1.0"
edition = "2021"
publish = false

[dependencies]
rust-ini = "=0.21.3"
home = "=0.5.12"
notify = "=8.2.0"
active-win-pos-rs = "=0.8.4"
clap = { version = "=4.6.7", features = ["derive"] }
anyhow = "=1.0.104"
sysinfo = "=0.26.9"
zip = { version = "=8.6.0", default-features = false, features = ["deflate"] }
