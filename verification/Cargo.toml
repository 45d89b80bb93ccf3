[package]
name = "lib_shim_v2"
version = "0.1.0"
edition = "2021"
publish = false

[dependencies]
ttrpc = "0.8"
nix = "0.23"
protobuf = "3"
lazy_static = "1"
