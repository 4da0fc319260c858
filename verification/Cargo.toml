[package]
name = "wasmcloud_host"
version = "0.1.0"
edition = "2021"
rust-version = "1.62"
publish = false

[dependencies]
anyhow = "=1.0.104"
futures = "=0.3.34"
log = "=0.4.34"
rand = "=0.8.8"
serde_json = "=1.0.151"
tokio = { version = "=1.53.2", features = ["fs", "io-std", "io-util", "rt", "macros"] }
url = "=2.5.8"
uuid = { version = "=1.27.0", features = ["v4"] }
rmp-serde = "=1.3.1"
nkeys = "=0.3.2"
data-encoding = "=2.11.1"
sha2 = "=0.10.9"
wasmtime = { version = "=48.0.5", default-features = false, features = ["cranelift", "runtime", "component-model", "pooling-allocator", "wat", "std"] }

[dev-dependencies]
wat = "=1.261.0"
