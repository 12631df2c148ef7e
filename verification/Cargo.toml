[package]
name = "rust_rtl8139"
version = "0.1.0"
edition = "2021"
publish = false
