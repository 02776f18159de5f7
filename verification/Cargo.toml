[package]
name = "bolt_keys"
version = "0.1.0"
edition = "2021"
publish = false

[dependencies]
pgp = "=0.10.2"

[dev-dependencies]
rayon = "=1.12.0"
