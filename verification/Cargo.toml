[package]
name = "uwscr_builtins"
version = "0.1.0"
edition = "2021"
publish = false

[dependencies]
regex = "1"
urlencoding = "*"
htmlentity = "*"
kanaria = "*"
base64 = "*"
cast = "*"
