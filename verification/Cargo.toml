[package]
name = "ginger-infra"
version = "0.1.0"
edition = "2021"
publish = false

[dependencies]
clap = { version = "=4.6.7", features = ["derive"] }
colored = "=3.1.1"
ginger-shared-rs = "=0.41.0-nightly.0"
tokio = { version = "=1.54.1", features = ["macros", "rt-multi-thread"] }
