[package]
name = "toggle_codec"
version = "0.1.0"
edition = "2021"
publish = false

[dependencies]
gdk4 = "*"
gio = "*"
glib = "*"
gtk4 = "*"
