[package]
name = "taskman"
version = "0.1.0"
edition = "2021"
publish = false

[dependencies]
libc = "0.2"
nix = { version = "0.29", features = ["signal", "sched", "process", "resource"] }
sysinfo = "0.33"
serde = { version = "1", features = ["derive"] }
thiserror = "2"
pyo3 = "0.23"
