[package]
name = "routing"
version = "0.1.0"
edition = "2021"
publish = false

[dependencies]
async-trait = "0.1"
barrage = "*"
chrono = "0.4"
clap = { version = "4", features = ["derive"] }
ctrlc = "3"
flume = "*"
prettytable-rs = "*"
tokio = { version = "1", features = ["full"] }
tracing = "0.1"
tracing-subscriber = "0.3"
