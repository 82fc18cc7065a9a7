[package]
name = "ros"
version = "0.1.0"
edition = "2021"
publish = false

[dependencies]
bootloader = "0.9"
lazy_static = { version = "1", features = ["spin_no_std"] }
pic8259 = "*"
pic8259_simple = "0.2"
spin = "0.9"
x86_64 = { version = "0.15", default-features = false, features = ["instructions"] }
