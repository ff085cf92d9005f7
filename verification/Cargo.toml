[package]
name = "redshift-rs"
version = "0.1.0"
edition = "2021"
publish = false

[dependencies]
time = "0.1"
chan = "0.1"
chan-signal = "0.3"
clap = "2"
rust-ini = "0.10"
xcb = "0.8"
dbus = "0.6"
