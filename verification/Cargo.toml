[package]
name = "sysnet"
version = "0.1.0"
edition = "2021"
publish = false

[dependencies]
sysinfo = "0.29"
pnet_datalink = "0.34"
ipnetwork = "0.20"
clap = { version = "3", features = ["derive"] }
