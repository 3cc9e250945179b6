[package]
name = "rock_paper_scissors"
version = "0.1.0"
edition = "2021"
publish = false

[dependencies]
neutrino = "*"
rand = "0.7"
read_input = "*"
