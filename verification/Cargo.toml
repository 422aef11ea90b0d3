[package]
name = "bbbasic"
version = "0.1.0"
edition = "2021"

[dependencies]
peginator = "=0.7.0"
peginator_macro = "0.7"
clap = { version = "=4.6.7", features = ["derive"] }
