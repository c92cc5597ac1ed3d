[package]
name = "auraed"
version = "0.1.0"
edition = "2021"
publish = false

[dependencies]
iter_tools = "=0.50.0"
anyhow = "=1.0.104"
thiserror = "=1.0.69"
tracing = "=0.1.44"
tracing-subscriber = { version = "=0.3.23", features = ["env-filter"] }
log = "=0.4.35"
tokio = { version = "=1.54.1", features = ["full"] }
nix = { version = "=0.27.1", features = ["mount", "sched", "signal", "process", "fs", "user"] }
libc = "=0.2.191"
procfs = "=0.18.0"
cgroups-rs = "=0.5.1"
uuid = { version = "=1.29.0", features = ["v4"] }
walkdir = "=2.5.0"
clone3 = "=0.2.3"
serde_json = "=1.0.154"
oci-spec = "=0.10.0"
lazy_static = "=1.5.1"
once_cell = "=1.21.4"
futures = "0.3"
tokio-stream = { version = "*", features = ["net"] }
ipnetwork = "*"
rtnetlink = "*"
netlink-packet-route = "*"
tonic = "*"
syslog-tracing = "*"
