[package]
name = "trimesh_testbed"
version = "0.1.0"
edition = "2021"
publish = false

[dependencies]
bevy = { version = "0.17", default-features = false }
log = "0.4"
tracing = "0.1"
