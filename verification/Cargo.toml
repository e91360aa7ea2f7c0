[package]
name = "tdx_seal"
version = "0.1.0"
edition = "2021"
publish = false

[dependencies]
base64 = "=0.23.1"
clap = { version = "=4.6.7", features = ["derive"] }
hex = "=0.4.3"
libc = "=0.2.190"
sha2 = "=0.11.0"
tdx-guest = "=0.3.2"
