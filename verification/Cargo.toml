[package]
name = "rep"
version = "0.1.0"
edition = "2021"
publish = false

[dependencies]
log = "=0.4.34"
proc-macro2 = { version = "=1.0.107", default-features = false }
quote = { version = "=1.0.47", default-features = false }
syn = { version = "=1.0.109", default-features = false, features = ["clone-impls", "derive", "full", "parsing", "printing"] }
