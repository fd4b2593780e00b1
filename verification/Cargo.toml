[package]
name = "boing"
version = "0.1.0"
edition = "2021"
publish = false

[dependencies]
bumpalo = "3"
libui-ng-sys = "*"
tracing = "0.1"
