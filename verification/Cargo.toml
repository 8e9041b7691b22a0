[package]
name = "hyperlight_core"
version = "0.1.0"
edition = "2021"
publish = false

[dependencies]
anyhow = "1"
flatbuffers = "*"
kvm-bindings = "*"
kvm-ioctls = "*"
log = "0.4"
tracing = "0.1"
