[package]
name = "php_discovery"
version = "0.1.0"
edition = "2021"
publish = false

[dependencies]
glob = "*"
is_executable = "*"
