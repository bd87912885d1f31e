[package]
name = "spill_bench"
version = "0.1.0"
edition = "2021"
publish = false

[dependencies]
datafusion-common = { version = "=55.1.0", default-features = false }
futures = "=0.3.34"
structopt = "=0.3.26"
tokio = { version = "=1.53.2", features = ["rt-multi-thread", "macros"] }
