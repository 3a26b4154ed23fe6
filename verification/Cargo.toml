[package]
name = "mf_derive"
version = "0.1.0"
edition = "2021"
publish = false

[dependencies]
proc-macro2 = "1"
quote = "1"
syn = { version = "2", features = ["full", "extra-traits"] }
serde_json = "1"
once_cell = "1"
thiserror = "2"
anyhow = "1"
strum = { version = "0.26", features = ["derive"] }
