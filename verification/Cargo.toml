[package]
name = "jni"
version = "0.1.0"
edition = "2021"
publish = false

[dependencies]
ctor = "=1.0.13"
jni-sys = "=0.4.1"
poggers = "*"
poggers-derive = "=0.1.5"
