[package]
name = "libil2cpp"
version = "0.1.0"
edition = "2021"
publish = false

[dependencies]
dlopen = "0.1.8"
dlopen_derive = "0.1.4"
paste = "1"
