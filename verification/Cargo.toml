[package]
name = "baremetal_snake"
version = "0.1.0"
edition = "2021"
publish = false

[dependencies]
pc-keyboard = "=0.8.0"
pluggable_interrupt_os = "=0.5.3"
lazy_static = { version = "=1.5.1", features = ["spin_no_std"] }
spin = "=0.9.9"
