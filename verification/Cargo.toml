[package]
name = "vita_gl_helpers"
version = "0.2.0"
edition = "2021"
publish = false

[dependencies]
gl = "=0.14.0"
log = "0.4"
