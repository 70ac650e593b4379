[package]
name = "wayshot_core"
version = "0.1.0"
edition = "2021"
publish = false

[dependencies]
rustix = { version = "=1.1.5", features = ["fs", "shm", "mm"] }
memmap2 = "=0.9.11"
wayland-client = "=0.31.15"
gbm = { version = "=0.18.0", default-features = false }
khronos-egl = { version = "=6.0.0", features = ["static"] }
png = "=0.18.1"
image = { version = "=0.25.10", default-features = false, features = ["png"] }
