[package]
name = "fe_mir_inst"
version = "0.1.0"
edition = "2021"
publish = false

[dependencies]
id-arena = "2"
