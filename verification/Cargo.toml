[package]
name = "weld"
version = "0.1.0"
edition = "2021"
publish = false

[dependencies]
code_builder = "*"
fnv = "1.0"
libc = "0.2"
llvm-sys = "60"
