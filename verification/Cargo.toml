[package]
name = "persil"
version = "0.1.0"
edition = "2021"
publish = false

[dependencies]
measureme = "*"
syn = { version = "*", features = ["full"] }
quote = "*"
proc-macro2 = "*"
