[package]
name = "bootimage"
version = "0.1.0"
edition = "2021"
publish = false

[dependencies]
toml = "*"
xmas-elf = "*"
git2 = "*"
file-fetcher = "*"
structopt = "0.3"
