[package]
name = "ssh_connect"
version = "0.1.0"
edition = "2021"
publish = false

[dependencies]
base64 = "0.13"
dirs = "3"
rpassword = "5"
ssh2 = "0.9"
