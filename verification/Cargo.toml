[package]
name = "krusty"
version = "0.1.0"
edition = "2021"
publish = false

[dependencies]
regex = "1"
rustc_apfloat = "*"
lazy_static = "1"
libloading = "*"
dirs = "*"
path-slash = "*"
clap = { version = "*", features = ["derive"] }
rustyline = "*"
