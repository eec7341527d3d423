[package]
name = "cairo_runners"
version = "0.1.0"
edition = "2021"
publish = false

[dependencies]
anyhow = "*"
cairo-lang-compiler = "=2.20.0"
cairo-lang-defs = "=2.20.0"
cairo-lang-diagnostics = "=2.20.0"
cairo-lang-filesystem = "=2.20.0"
cairo-lang-formatter = "=2.20.0"
cairo-lang-runner = "=2.20.0"
cairo-lang-semantic = "=2.20.0"
cairo-lang-sierra = "=2.20.0"
cairo-lang-sierra-generator = "=2.20.0"
cairo-lang-sierra-to-casm = "=2.20.0"
cairo-lang-starknet = "=2.20.0"
cairo-lang-test-plugin = "=2.20.0"
cairo-lang-utils = "=2.20.0"
serde = { version = "*", features = ["derive"] }
serde_json = "*"
starknet-types-core = "=0.2.4"
