[package]
name = "comb"
version = "0.1.0"
edition = "2021"
publish = false

[dependencies]
color-eyre = "*"
reqwest = { version = "*", default-features = false }
tokio = { version = "*", features = ["rt-multi-thread", "macros", "net", "time", "io-util"] }
tracing = "*"
tracing-subscriber = { version = "*", features = ["env-filter", "fmt"] }
