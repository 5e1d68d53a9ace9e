[package]
name = "olm_core"
version = "0.1.0"
edition = "2021"
publish = false

[dependencies]
vodozemac = "=0.6.0"
