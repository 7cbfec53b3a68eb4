[package]
name = "anchor_idl"
version = "0.1.0"
edition = "2021"
publish = false

[dependencies]
anchor-lang = "=0.31.2"
heck = "=0.5.0"
sha2 = "=0.10.9"
