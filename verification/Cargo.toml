[package]
name = "sidespot"
version = "0.1.0"
edition = "2021"
publish = false

[dependencies]
librespot-core = "=0.8.0"
librespot-playback = { version = "=0.8.0", default-features = false }
librespot-connect = { version = "=0.8.0", default-features = false }
librespot-metadata = { version = "=0.8.0", default-features = false }
librespot-protocol = "=0.8.0"
tokio = { version = "=1.54.1", features = ["rt-multi-thread", "sync", "macros", "time"] }
serde = { version = "=1.0.229", features = ["derive"] }
serde_json = "=1.0.154"
log = "=0.4.35"
protobuf = "=3.7.2"
hyper = "=1.12.0"
vergen = { version = "=9.0.6", default-features = false }
jni = "=0.21.1"
