[package]
name = "uc8253"
version = "0.1.0"
edition = "2021"
publish = false

[dependencies]
embedded-graphics = "=0.8.2"
embedded-hal = "=1.0.0"
embedded-hal-async = "=1.0.0"
static_cell = "=2.1.1"
embassy-sync = "=0.8.0"
embassy-time = "=0.5.1"
embassy-embedded-hal = "=0.6.0"
