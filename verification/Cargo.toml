[package]
name = "skillcapped_generator"
version = "0.1.0"
edition = "2021"
publish = false

[dependencies]
arboard = "*"
base64 = "*"
clap = "*"
crossterm = "*"
ratatui = "*"
