[package]
name = "hypervisor_report"
version = "0.1.0"
edition = "2021"
publish = false

[dependencies]
virt = "0.3"
log = "0.4"
env_logger = "0.11"
