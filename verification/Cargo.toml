[package]
name = "koruma"
version = "0.1.0"
edition = "2021"
publish = false

[dependencies]
heck = "*"
regex = "*"
url = "*"
card-validate = "*"
phonenumber = "*"
