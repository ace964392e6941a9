[package]
name = "canstack"
version = "0.1.0"
edition = "2021"
publish = false

[dependencies]
libc = "0.2"
embedded-can = "0.4"
managed = "0.8"
nusb = "0.2"
futures = "0.3"
tokio = { version = "1", features = ["sync", "rt", "rt-multi-thread", "time"] }
async-io = "2"
thiserror = "2"
num = "0.4"
