[package]
name = "derive_wizard"
version = "0.1.0"
edition = "2021"
publish = false

[dependencies]
dialoguer = "0.11"
egui = "0.29"
proc-macro2 = "1"
quote = "1"
syn = "2"
thiserror = "1"
