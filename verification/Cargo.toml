[package]
name = "timetrack"
version = "0.1.0"
edition = "2021"
publish = false

[dependencies]
anyhow = "*"
crossbeam = "*"
notify = "*"
rdev = "*"
tokio = { version = "*", features = ["full"] }
tracing = "*"
