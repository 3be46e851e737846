[package]
name = "wallet_strategy"
version = "0.1.0"
edition = "2021"
publish = false
