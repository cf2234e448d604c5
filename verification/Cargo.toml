[package]
name = "waymux"
version = "0.1.0"
edition = "2021"
publish = false

[dependencies]
anyhow = "=1.0.104"
gl = "0.14"
khronos-egl = { version = "=6.0.0", features = ["dynamic"] }
libc = "=0.2.191"
libloading = "=0.8.9"
memmap2 = "=0.9.12"
png = "=0.17.16"
rmp-serde = "=1.3.1"
rmpv = { version = "=1.3.1", features = ["with-serde"] }
serde = { version = "=1.0.229", features = ["derive"] }
serde_bytes = "=0.11.19"
thiserror = "=1.0.69"
tokio = { version = "=1.54.1", features = ["io-util", "macros", "net", "process", "rt-multi-thread", "sync", "time"] }
tracing = "=0.1.44"
wayland-protocols = { version = "=0.32.13", features = ["server", "staging", "unstable"] }
wayland-protocols-plasma = { version = "=0.3.12", features = ["server"] }
wayland-protocols-wlr = { version = "=0.3.12", features = ["server"] }
wayland-server = "=0.31.14"
