[package]
name = "snippet_harness"
version = "0.1.0"
edition = "2021"
publish = false

[dependencies]
clap = "2"
colored = "1"
ctrlc = "3"
dotenv = "0.15"
egg-mode = "0.13"
failure = "0.1"
tokio-core = "0.1"
