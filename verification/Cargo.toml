[package]
name = "zenoh_pub"
version = "0.1.0"
edition = "2021"
publish = false

[dependencies]
defmt = "0.3"
rand = "0.8"
uhlc = "*"
