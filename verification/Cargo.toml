[package]
name = "git_prompt"
version = "0.1.0"
edition = "2021"
publish = false

[dependencies]
git2 = "=0.21.0"
walkdir = "=2.5.0"
nu-plugin = "=0.115.1"
nu-protocol = "=0.115.1"
