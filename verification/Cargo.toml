[package]
name = "fact_gpt_solana"
version = "0.1.0"
edition = "2021"
publish = false

[dependencies]
sha3 = "0.10"
primitive-types = "0.12"
