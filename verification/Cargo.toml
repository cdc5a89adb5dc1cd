[package]
name = "scaffold_core"
version = "0.1.0"
edition = "2021"
publish = false

[dependencies]
convert_case = "=0.6.0"
pluralizer = "=0.4.0"
syn = { version = "=2.0.119", features = ["full"] }
quote = "=1.0.47"
proc-macro2 = "=1.0.107"
serde = { version = "=1.0.229", features = ["derive"] }
dialoguer = "=0.12.0"
colored = "=3.1.1"
include_dir = "=0.7.4"
temp-dir = "=0.2.0"
degit = "=0.1.3"
handlebars = "4"
