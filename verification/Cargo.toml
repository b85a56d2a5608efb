[package]
name = "rbatis_schema"
version = "0.1.0"
edition = "2021"
publish = false

[dependencies]
convert_case = "*"
rbatis = "*"
rbs = "*"
serde = { version = "*", features = ["derive"] }
darling = "*"
syn = { version = "*", features = ["full"] }
proc-macro2 = "*"
quote = "*"
manyhow = "*"
