[package]
name = "jonect_stream"
version = "0.1.0"
edition = "2021"
publish = false

[dependencies]
audiopus = "0.3.0-rc.0"
jni = "0.19"
lazy_static = "1.4"
libc = "0.2"
log = "0.4"
ndk-sys = "*"
