[package]
name = "ironboyadvance"
version = "0.1.0"
edition = "2021"
publish = false

[dependencies]
dynasmrt = "*"
thiserror = "=2.0.21"
