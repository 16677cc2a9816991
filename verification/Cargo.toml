[package]
name = "plato_core"
version = "0.1.0"
edition = "2021"
publish = false

[dependencies]
anyhow = "=1.0.104"
libc = "=0.2.191"
libremarkable = "=0.7.0"
memmap2 = "=0.9.12"
serde = { version = "=1.0.229", features = ["derive"] }
