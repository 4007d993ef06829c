[package]
name = "sneakercopy"
version = "0.1.0"
edition = "2021"
publish = false

[dependencies]
base64 = "0.13"
libflate = "*"
sodiumoxide = "0.2"
tar = "0.4"
structopt = "0.3"
rpassword = "*"
rand = "*"
