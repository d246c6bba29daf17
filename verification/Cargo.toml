[package]
name = "zune_workflow"
version = "0.1.0"
edition = "2021"
publish = false

[dependencies]
clap = "*"
log = "*"
zune-core = "*"
