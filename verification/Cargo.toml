[package]
name = "uclcli"
version = "0.2.0"
edition = "2021"
publish = false

[dependencies]
anyhow = "1"
clap = { version = "4", features = ["derive"] }
libc = "0.2"
memmap2 = "0.9"
thiserror = "2"
