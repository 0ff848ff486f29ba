[package]
name = "gametank_core"
version = "0.1.0"
edition = "2021"
publish = false

[dependencies]
dasp_graph = "=0.11.0"
dasp_interpolate = { version = "=0.11.0", features = ["linear"] }
dasp_signal = "=0.11.0"
enum_delegate = "=0.2.0"
klingt = "=0.1.0"
log = "=0.4.34"
petgraph = "*"
rtrb = "*"
