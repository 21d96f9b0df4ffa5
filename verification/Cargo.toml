[package]
name = "capsa"
version = "0.1.0"
edition = "2021"
publish = false

[dependencies]
anyhow = "=1.0.104"
clap = { version = "=4.6.7", features = ["derive"] }
kvm-ioctls = "=0.25.1"
kvm-bindings = "=0.14.2"
vm-memory = { version = "=0.18.0", features = ["backend-mmap"] }
linux-loader = { version = "=0.14.0", features = ["bzimage"] }
nix = { version = "=0.31.3", features = ["fs", "term", "signal", "socket", "ioctl", "poll", "pthread"] }
tokio = { version = "=1.54.1", features = ["full"] }
vmm-sys-util = "=0.15.0"
tracing = "=0.1.44"
tracing-subscriber = "=0.3.23"
vm-superio = "=0.8.2"
vm-device = "=0.1.0"
async-trait = "=0.1.92"
