[package]
name = "ignis"
version = "0.1.0"
edition = "2021"
publish = false

[dependencies]
llvm-sys = "180"
logos = "0.14"
small_uid = "*"
