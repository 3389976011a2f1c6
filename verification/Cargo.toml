[package]
name = "zenith"
version = "0.1.0"
edition = "2021"
publish = false

[dependencies]
heapless = "=0.8.0"
zencan-common = { version = "=0.0.5", default-features = false, features = ["log"] }
embedded-can = "=0.4.1"
mavio = { version = "=0.4.4", default-features = false, features = ["common", "embedded-io"] }
embedded-hal-async = "=1.0.0"
embedded-storage-async = "=0.4.2"
sequential-storage = "=7.2.0"
embassy-sync = "=0.7.2"
embassy-time = "=0.5.1"
embassy-futures = "=0.1.2"
num-traits = "=0.2.19"
nalgebra = "=0.33.3"
lora-phy = "=3.0.1"
syn = { version = "=2.0.119", features = ["full"] }
quote = "=1.0.47"
proc-macro2 = "=1.0.107"
