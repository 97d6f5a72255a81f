[package]
name = "ids"
version = "0.1.0"
edition = "2021"
publish = false

[dependencies]
chrono = "0.4"
etherparse = "*"
pcap = "*"
regex = "1"
syslog = "*"
tokio = { version = "1", features = ["macros", "rt", "sync", "time"] }
