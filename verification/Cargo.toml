[package]
name = "rorm_lib"
version = "0.1.0"
edition = "2021"
publish = false

[dependencies]
serde = { version = "=1.0.229", features = ["derive"] }
proc-macro2 = "=1.0.107"
quote = "=1.0.47"
syn = "=2.0.119"
reqwest = { version = "0.12", default-features = false, features = ["json", "cookies"] }
