[package]
name = "rslock"
version = "0.9.1"
edition = "2021"
publish = false

[dependencies]
futures = "*"
rand = "*"
redis = { version = "*", features = ["tokio-comp", "cluster-async"] }
thiserror = "*"
tokio = { version = "*", features = ["macros", "rt-multi-thread", "sync", "time"] }
