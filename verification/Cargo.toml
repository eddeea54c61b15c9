[package]
name = "pag_dataflow"
version = "0.1.0"
edition = "2021"
publish = false

[dependencies]
timely = "0.12"
rand = "0.8"
time = "0.1"
abomonation = "0.7"
abomonation_derive = "*"
