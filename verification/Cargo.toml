[package]
name = "resource_proof"
version = "1.0.0"
edition = "2021"
publish = false

[dependencies]
clap = { version = "3.2", features = ["derive"] }
termion = "1.5"
tiny-keccak = { version = "2.0", features = ["sha3"] }

[dev-dependencies]
rand = "0.8"
