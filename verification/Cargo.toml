[package]
name = "save_pcap"
version = "0.1.0"
edition = "2021"
publish = false

[dependencies]
chrono = "*"
env_logger = "*"
log = "*"
pcap = "*"
pcap-file = "*"
thiserror = "*"
