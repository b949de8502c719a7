[package]
name = "aft"
version = "0.1.0"
edition = "2021"
publish = false

[dependencies]
serde_json = "=1.0.154"
libc = "=0.2.191"
mimalloc = { version = "=0.1.52", features = ["extended"] }
rusqlite = { version = "=0.41.1", features = ["bundled"] }
ignore = "=0.4.34"
lsp-types = "=0.97.0"
parking_lot = "=0.12.5"
log = "=0.4.35"
crossbeam-channel = "0.5"
