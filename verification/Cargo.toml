[package]
name = "aws_mfa_session"
version = "0.1.0"
edition = "2021"
publish = false

[dependencies]
rust-ini = "*"
dirs = "*"
rusoto_core = "0.42"
rusoto_credential = "0.42"
rusoto_sts = "0.42"
