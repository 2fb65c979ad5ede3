[package]
name = "aarch64"
version = "0.1.0"
edition = "2021"
publish = false

[dependencies]
bit_field = "=0.10.3"
bitflags = "=1.3.2"
cast = "=0.3.0"
cortex-a = { version = "=8.1.1", default-features = false }
register = "=0.5.1"
tock-registers = "=0.10.1"
ux = "=0.1.6"
