[package]
name = "taigikeyboard"
version = "0.1.0"
edition = "2021"
publish = false

[dependencies]
xkeysym = "0.2"
zbus = "5"
log = "0.4"
env_logger = "0.11"
thiserror = "2"
