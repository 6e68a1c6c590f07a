[package]
name = "rinzler"
version = "0.1.0"
edition = "2021"
publish = false

[dependencies]
chrono = "0.4"
clap = { version = "3.2", features = ["env"] }
colored = "2"
console = "0.15"
crossbeam = "0.8"
indicatif = "0.17"
rayon = "1"
regex = "1"
reqwest = { version = "0.11", features = ["blocking"] }
string-builder = "0.2"
threadpool = "1"
tokio = { version = "1", features = ["rt-multi-thread", "macros"] }
tracing = "0.1"
tracing-subscriber = "0.3"
url = "2"
uuid = { version = "1", features = ["v4"] }
