[package]
name = "joshuto"
version = "0.1.0"
edition = "2021"
publish = false

[dependencies]
rustyline = "6"
termion = "1.5"
tui = "0.9"
