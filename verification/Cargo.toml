[package]
name = "consensus_engine"
version = "0.1.0"
edition = "2021"
publish = false

[dependencies]
parity-scale-codec = { version = "=3.7.5", features = ["derive", "max-encoded-len"] }
scale-info = { version = "=2.11.6", features = ["derive"] }
sp-consensus-slots = "=0.50.0"
sp-consensus-aura = "=0.50.0"
sp-consensus-babe = "=0.50.0"
sp-runtime = "=49.0.0"
frame-support = "=49.0.1"
frame-system = "=49.0.0"
log = "=0.4.35"
