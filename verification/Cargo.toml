[package]
name = "mpv_render_linux"
version = "0.1.0"
edition = "2021"
publish = false

[dependencies]
gtk = "0.18"
libmpv2-sys = "*"
