[package]
name = "proposal_verify"
version = "0.1.0"
edition = "2021"
publish = false

[dependencies]
hex = "0.4"
tracing = "0.1"
tendermint-proto = "*"
