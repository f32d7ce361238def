[package]
name = "libboard_zynq"
version = "0.1.0"
edition = "2021"
publish = false

[dependencies]
bit_field = "0.10"
embedded-hal = "0.2"
nb = "0.1"
void = { version = "1", default-features = false }
log = "0.4"
