[package]
name = "codebased"
version = "0.0.1"
edition = "2021"
publish = false

[dependencies]
clap = "2.34"
rusqlite = "*"
rusqlite_migration = "*"
