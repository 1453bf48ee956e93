[package]
name = "blueshift_anchor_amm"
version = "0.1.0"
edition = "2021"
publish = false

[dependencies]
anchor-lang = "0.31.2"
anchor-spl = { version = "0.31.2", default-features = false, features = ["token", "token_2022", "associated_token", "mint"] }
