[package]
name = "skeletal_input"
version = "0.1.0"
edition = "2021"
publish = false

[dependencies]
ipc-channel = "*"
libc = "*"
log = "*"
env_logger = "*"
openxr = { version = "*", default-features = false, features = ["loaded"] }
