[package]
name = "voprf_exchange"
version = "0.1.0"
edition = "2021"
publish = false

[dependencies]
voprf = { version = "=0.5.0", features = ["danger"] }
rand = "=0.8.8"
typenum = "=1.20.1"
thiserror = "=1.0.69"
reqwest = { version = "=0.11.27", default-features = false, features = ["blocking"] }
fastly = "=0.13.1"
