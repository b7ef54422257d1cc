[package]
name = "exper_clap_config"
version = "0.1.0"
edition = "2021"
publish = false

[dependencies]
clap = "2"
log = "0.4"
rust_decimal = "1"
toml = "0.5"
