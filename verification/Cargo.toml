[package]
name = "tracing-rolling"
version = "0.1.0"
edition = "2021"
publish = false

[dependencies]
time = { version = "0.3", features = ["formatting", "parsing", "macros"] }
regex = "1"
parking_lot = "0.12"
tracing-subscriber = { version = "0.3", default-features = false, features = ["std", "fmt"] }
