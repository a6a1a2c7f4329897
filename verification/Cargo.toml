[package]
name = "fixed_vec"
version = "0.1.0"
edition = "2021"
publish = false

[dependencies]
type_name_value = "*"
