[package]
name = "cower"
version = "0.1.0"
edition = "2021"
publish = false

[dependencies]
anyhow = "=1.0.104"
clap = { version = "=4.6.7", features = ["derive"] }
eframe = { version = "=0.32.3", default-features = false, features = ["glow", "x11"] }
native-tls = "=0.2.18"
thiserror = "=2.0.21"
ureq = "=3.5.0"
