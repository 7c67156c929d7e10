[package]
name = "baldrdash"
version = "0.1.0"
edition = "2021"
publish = false

[dependencies]
cranelift-codegen = "=0.134.4"
log = "=0.4.34"
env_logger = "=0.11.11"
