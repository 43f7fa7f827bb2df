[package]
name = "bullet_arena"
version = "0.1.0"
edition = "2021"
publish = false

[dependencies]
rand = { version = "=0.8.8", default-features = false, features = ["small_rng"] }
pc-keyboard = "=0.8.0"
pluggable_interrupt_os = "=0.5.3"
