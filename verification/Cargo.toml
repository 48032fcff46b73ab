[package]
name = "packed_struct"
version = "0.10.0"
edition = "2021"

[dependencies]
bitvec = "1"
serde = { version = "1", features = ["derive"] }
syn = { version = "1", features = ["full", "extra-traits"] }
quote = "1"
proc-macro2 = "1"
