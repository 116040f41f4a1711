[package]
name = "nameof_engine"
version = "0.1.0"
edition = "2021"
publish = false

[dependencies]
swc_core = { version = "*", default-features = false, features = ["ecma_ast", "ecma_visit", "common"] }
