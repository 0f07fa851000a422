[package]
name = "waybar_mpris"
version = "0.1.0"
edition = "2021"
publish = false

[dependencies]
regex = "1"
waybar-cffi = "*"
gdk = "0.18"
soup3 = "0.5"
