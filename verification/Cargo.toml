[package]
name = "blog_os"
version = "0.1.0"
edition = "2021"
publish = false

[dependencies]
bootloader = "0.9"
lazy_static = { version = "1", features = ["spin_no_std"] }
spin = "0.5"
x86_64 = { version = "0.14", default-features = false, features = ["instructions"] }
