[package]
name = "vtpm"
version = "0.1.0"
edition = "2021"
publish = false

[dependencies]
vm-memory = { version = "0.16", features = ["backend-mmap"] }
vmm-sys-util = "*"
event-manager = "*"
libc = "*"
serde = { version = "1", features = ["derive"] }
serde_json = "1"
thiserror = "*"
derive_more = { version = "*", features = ["from"] }
