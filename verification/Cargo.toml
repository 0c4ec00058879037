[package]
name = "syscall_compat_tests"
version = "0.1.0"
edition = "2021"
publish = false

[dependencies]
anyhow = "1"
chrono = "*"
clap = { version = "4", features = ["derive"] }
colored = "*"
libc = "*"
serde = { version = "1", features = ["derive"] }
serde_json = "1"
