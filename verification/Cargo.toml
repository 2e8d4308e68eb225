[package]
name = "gdt_boot"
version = "0.1.0"
edition = "2021"
publish = false

[dependencies]
lazy_static = "=1.5.1"
x86_64 = { version = "=0.14.13", default-features = false, features = ["instructions"] }
