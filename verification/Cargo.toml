[package]
name = "helm_jit"
version = "0.1.0"
edition = "2021"
publish = false

[dependencies]
dynasm = "=5.1.0"
dynasmrt = "=5.1.0"
libc = "=0.2.191"
