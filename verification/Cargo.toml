[package]
name = "keystone_vertex"
version = "0.1.0"
edition = "2021"
publish = false

[dependencies]
solana-program = "=2.3.0"
anchor-lang = { version = "=0.31.2", features = ["init-if-needed"] }
anchor-spl = { version = "=0.31.2", default-features = false, features = ["token"] }
num-traits = "=0.2.19"
serde = { version = "=1.0.229", features = ["derive"] }
strum = { version = "=0.26.3", features = ["derive"] }
thiserror = "=1.0.69"
bytemuck = { version = "=1.25.2", features = ["derive"] }
solana-security-txt = "=1.1.3"
