[package]
name = "icpv_token"
version = "0.1.0"
edition = "2021"
publish = false

[dependencies]
candid = "=0.10.39"
ic-cdk = "=0.20.3"
ic-cdk-macros = "=0.20.3"
ic-kit = "=0.4.8"
num-traits = "=0.2.19"
serde = { version = "1", features = ["derive"] }
thiserror = "=1.0.69"
