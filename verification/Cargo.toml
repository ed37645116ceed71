[package]
name = "io_expander"
version = "0.1.0"
edition = "2021"
publish = false

[dependencies]
ux = "=0.1.6"
fixed = "=1.31.0"
libm = "=0.2.16"
log = "=0.4.34"
defmt = "=0.3.101"
embedded-hal-async = "=1.0.0"
embassy-time = "=0.3.2"
