[package]
name = "purple_night"
version = "0.1.0"
edition = "2021"
publish = false

[dependencies]
agb = "0.8.0"
agb_fixnum = "*"
generational-arena = "0.2"
