[package]
name = "freertos_rt"
version = "0.1.0"
edition = "2021"
publish = false

[dependencies]
cstr_core = { version = "0.2", features = ["alloc"] }
embedded-hal = "0.2"
