[package]
name = "job_market"
version = "0.1.0"
edition = "2021"
publish = false

[dependencies]
screeps-game-api = "*"
log = "*"
lazy_static = "*"
thiserror = "*"
