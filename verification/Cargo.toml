[package]
name = "validated_values"
version = "0.1.0"
edition = "2021"
publish = false

[dependencies]
rand = "0.8"
fake = "2"
lipsum = "0.9"
serde-email = "*"
proptest = "1"
arbitrary = "1"
uuid = "1"
argon2 = "0.5"
rust_decimal = "1"
serde = { version = "1", features = ["derive"] }
thiserror = "1"
async-trait = "0.1"
num-bigint = "0.4"
