[package]
name = "tsync"
version = "0.1.0"
edition = "2021"
publish = false

[dependencies]
convert_case = "=0.6.0"
quote = "=1.0.47"
syn = { version = "=2.0.119", features = ["full", "extra-traits"] }
walkdir = "=2.5.0"
