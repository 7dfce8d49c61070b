[package]
name = "folder_compare"
version = "0.4.0"
edition = "2021"
publish = false

[dependencies]
fxhash = "0.2"
regex = "1"
walkdir = "2"
