[package]
name = "native_boundary"
version = "0.1.0"
edition = "2021"
publish = false

[dependencies]
cairo-sys-rs = { version = "=0.17.10", features = ["use_glib"] }
gio-sys = "=0.17.10"
glib-sys = "=0.17.10"
gobject-sys = "=0.17.10"
gtk-sys = "=0.17.0"
libc = "=0.2.191"
