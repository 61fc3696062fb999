[package]
name = "taotie"
version = "0.1.0"
edition = "2021"
publish = false

[dependencies]
anyhow = "=1.0.104"
arrow = "=52.2.0"
# Held back: arrow-arith 52 does not compile against chrono 0.4.40 and later.
chrono = "=0.4.38"
clap = { version = "=4.6.7", features = ["derive"] }
crossbeam-channel = "=0.5.17"
datafusion = { version = "=40.0.0", default-features = false, features = ["array_expressions", "unicode_expressions", "parquet"] }
dirs = "=5.0.1"
enum_dispatch = "=0.3.13"
oneshot = "=0.1.13"
reedline-repl-rs = { version = "=1.3.0", features = ["derive"] }
tokio = { version = "=1.54.1", features = ["rt", "rt-multi-thread"] }
