[package]
name = "bitcode_recomp"
version = "0.1.0"
edition = "2021"
publish = false

[dependencies]
xml-rs = "*"
mach_object = "*"
memmap = "*"
getopts = "*"
