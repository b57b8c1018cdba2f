[package]
name = "dataloader"
version = "0.1.0"
edition = "2021"
publish = false

[dependencies]
rand = "0.8"
rayon = "1"
crossbeam-channel = "0.5"
ndarray = "0.15"
thiserror = "1"
