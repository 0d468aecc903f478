[package]
name = "bridge_supervisor"
version = "0.1.0"
edition = "2021"
publish = false

[dependencies]
url = "1.7"
env_logger = "0.4"
openssl = "0.10"
postgres = "0.19"
postgres-openssl = "0.5"
r2d2 = "0.8"
r2d2_postgres = "0.18"
