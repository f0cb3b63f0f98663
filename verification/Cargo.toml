[package]
name = "migration_tls"
version = "0.1.0"
edition = "2021"
publish = false

[dependencies]
log = "0.4"
rustls = { version = "0.23", default-features = false, features = ["logging", "ring", "std", "tls12"] }
thiserror = "2"
vm-memory = { version = "0.16", features = ["backend-mmap"] }
