[package]
name = "kernel_interrupts"
version = "0.1.0"
edition = "2021"
publish = false

[dependencies]
spin = "=0.9.9"

[dev-dependencies]
pc-keyboard = "=0.7.0"
