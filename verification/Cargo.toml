[package]
name = "snapshot_migrator"
version = "0.1.0"
edition = "2021"
publish = false

[dependencies]
vm-allocator = "*"
libc = "*"
serde = { version = "*", features = ["derive"] }
