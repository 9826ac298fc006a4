[package]
name = "quarry_core"
version = "0.1.0"
edition = "2021"
publish = false

[dependencies]
anchor-lang = "*"
spl-associated-token-account = "*"
metaplex-token-metadata = "*"
borsh = "0.9"
