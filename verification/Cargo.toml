[package]
name = "smc_exporter"
version = "0.1.0"
edition = "2021"
publish = false

[dependencies]
anyhow = "*"
log = "*"
macsmc = "*"
pretty_env_logger = "*"
prometheus_exporter = "*"
