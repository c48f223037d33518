[package]
name = "zkbench"
version = "0.1.0"
edition = "2021"
publish = false

[dependencies]
serde = { version = "=1.0.229", features = ["derive"] }
serde_json = "=1.0.154"
tracing-subscriber = { version = "=0.3.23", features = ["env-filter"] }
p3-baby-bear = "=0.1.4-succinct"
p3-field = "=0.1.4-succinct"
risc0-zkvm = { version = "=1.2.6", default-features = false, features = ["client"] }
sp1-stark = "=3.4.0"
sp1-zkvm = "=4.2.1"
