[package]
name = "casm_packager"
version = "0.1.0"
edition = "2021"
publish = false

[dependencies]
cairo-felt = "=0.9.1"
cairo-lang-casm = "=2.20.0"
cairo-lang-sierra = "=2.20.0"
cairo-lang-sierra-to-casm = "=2.20.0"
cairo-lang-sierra-type-size = "=2.20.0"
cairo-lang-starknet-classes = "=2.20.0"
cairo-lang-utils = "*"
cairo-vm = "*"
clap = { version = "*", features = ["derive"] }
convert_case = "=0.12.0"
itertools = "*"
num-bigint = "=0.4.8"
num-integer = "=0.1.47"
num-traits = "*"
serde = { version = "*", features = ["derive"] }
serde_json = "*"
