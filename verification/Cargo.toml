[package]
name = "objalloc"
version = "0.1.0"
edition = "2021"
publish = false

[dependencies]
sel4 = "0.0.12"
spin = "0.9"
