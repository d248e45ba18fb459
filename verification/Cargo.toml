[package]
name = "rcore_tasks"
version = "0.1.0"
edition = "2021"
publish = false

[dependencies]
riscv = "0.10"
lazy_static = "1"
buddy_system_allocator = "0.9"
