[package]
name = "metar_map"
version = "0.1.0"
edition = "2021"
publish = false

[dependencies]
anyhow = "*"
env_logger = "*"
futures = "*"
itertools = "*"
log = "*"
maplit = "*"
metar = "*"
reqwest = { version = "*", default-features = false }
serialport = { version = "*", default-features = false }
structopt = "*"
tokio = { version = "*", features = ["macros", "rt-multi-thread", "time"] }
