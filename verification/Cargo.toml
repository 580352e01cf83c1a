[package]
name = "mumblebot"
version = "0.1.0"
edition = "2021"
publish = false

[dependencies]
byte-slice-cast = "0.2"
cgmath = "0.16"
failure = "0.1"
futures = "0.1"
glib = "0.5"
gstreamer = "0.11"
gstreamer-app = "0.11"
gstreamer-audio = "0.11"
libc = "0.2"
pretty_env_logger = "0.2"
