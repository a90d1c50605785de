[package]
name = "pubs"
version = "0.1.0"
edition = "2021"
publish = false

[dependencies]
clap = "2"
env_logger = "0.9"
zenoh = "=0.5.0-beta.9"
