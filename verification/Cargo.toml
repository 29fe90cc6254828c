[package]
name = "coop_kernel"
version = "0.1.0"
edition = "2021"
publish = false

[dependencies]
buddy_system_allocator = "0.6"
log = "0.4"
