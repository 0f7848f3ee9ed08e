[package]
name = "sandbox_shim"
version = "0.1.0"
edition = "2021"
publish = false

[dependencies]
nix = { version = "=0.31.3", features = ["signal", "time", "sched", "process", "fs"] }
cgroups-rs = "=0.5.1"
containerd-shim = "=0.11.0"
tokio = { version = "=1.53.2", features = ["full"] }
serde_json = "=1.0.151"
log = "=0.4.34"
oci-spec = "=0.10.0"
