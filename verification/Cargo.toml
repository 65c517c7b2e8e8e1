[package]
name = "wasm_shim"
version = "0.1.0"
edition = "2021"
publish = false

[dependencies]
anyhow = "1"
cgroups-rs = "*"
chrono = "0.4"
containerd-client = "*"
containerd-shim = "*"
futures = "0.3"
log = "0.4"
oci-spec = "*"
protobuf = "3"
serde_json = "1"
tokio = { version = "1", features = ["rt"] }
ttrpc = "*"
