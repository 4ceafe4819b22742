[package]
name = "krun"
version = "0.1.0"
edition = "2021"
publish = false

[dependencies]
imago = { version = "*", features = ["sync-wrappers", "vm-memory"] }
io-uring = "*"
libc = "0.2"
log = "0.4"
nix = { version = "*", features = ["socket", "fs", "net", "uio"] }
serde = { version = "1", features = ["derive"] }
smallvec = "1"
thiserror = "*"
vfio-bindings = "*"
virtio-bindings = "*"
vm-memory = { version = "*", features = ["backend-mmap"] }
vmm-sys-util = "*"
