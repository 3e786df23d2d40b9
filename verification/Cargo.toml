[package]
name = "eddy"
version = "0.1.0"
edition = "2021"
publish = false

[dependencies]
rand = "*"
clap = "*"
dirs = "*"
ignore = "*"
skim = "*"
