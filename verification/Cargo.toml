[package]
name = "rjvm"
version = "0.1.0"
edition = "2021"
publish = false

[dependencies]
cesu8 = "*"
result = "*"
thiserror = "*"
