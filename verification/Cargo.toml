[package]
name = "timebase"
version = "0.1.0"
edition = "2021"
publish = false

[dependencies]
nb = "1"
void = { version = "1", default-features = false }
