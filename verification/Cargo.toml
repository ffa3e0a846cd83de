[package]
name = "libobs_wrapper"
version = "0.1.0"
edition = "2021"
publish = false

[dependencies]
libobs = "=5.0.1+32.0.4"
colored = "=3.1.1"
anyhow = "=1.0.104"
log = "=0.4.35"
lazy_static = "=1.5.1"
num-traits = "=0.2.19"
display-info = "=0.5.10"
chrono = "=0.4.45"
arboard = "=3.7.0"
vsprintf = "=2.0.0"
oneshot = "=0.2.1"
tokio = { version = "=1.54.1", features = ["sync", "rt", "fs", "io-util", "process"] }
dialog = "0.3"
