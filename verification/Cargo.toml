[package]
name = "radar_server"
version = "0.1.0"
edition = "2021"
publish = false

[dependencies]
bytemuck = { version = "=1.25.2", features = ["extern_crate_alloc"] }
num-complex = { version = "=0.4.6", features = ["bytemuck"] }
fastrand = "=2.5.0"
serde = { version = "=1.0.229", features = ["derive"] }
serde_json = "=1.0.154"
serde_bytes = "=0.11.19"
serde_with = "=3.24.0"
rmp-serde = "=1.3.1"
zmq = "=0.10.0"
hdf5-metno = { version = "=0.15.1", features = ["complex"] }
chrono = "=0.4.45"
log = "=0.4.35"
dirs = "=7.0.0"
