[package]
name = "atom_conformance"
version = "0.1.0"
edition = "2021"
publish = false

[dependencies]
cvxrust = "=0.1.0"
nalgebra = "=0.33.3"
serde = { version = "=1.0.229", features = ["derive"] }
serde_yaml = "=0.9.34"
