[package]
name = "shell_parser_common_rs"
version = "0.1.0"
edition = "2021"
publish = false

[dependencies]
encoding_rs = "*"
