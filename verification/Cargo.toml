[package]
name = "configure_me"
version = "0.1.0"
edition = "2021"
publish = false

[dependencies]
parse_arg = "=0.1.6"
unicode-segmentation = "=1.13.3"
toml = "=0.5.11"
serde = { version = "=1.0.229", features = ["derive"] }
codespan-reporting = "=0.11.1"
man = "0.3"
cargo_toml = "0.15"
