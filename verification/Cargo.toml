[package]
name = "riscv_clic"
version = "0.1.0"
edition = "2021"
publish = false

[dependencies]
bit_field = "0.10"
critical-section = { version = "1", features = ["std"] }
volatile-register = "0.2"
