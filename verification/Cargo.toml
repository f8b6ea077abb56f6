[package]
name = "cce_lock"
version = "0.1.0"
edition = "2021"
publish = false

[dependencies]
calloop = "=0.13.0"
calloop-wayland-source = "=0.3.0"
env_logger = "=0.11.11"
libc = "=0.2.191"
log = "=0.4.35"
pam-sys = "=0.5.6"
smithay-client-toolkit = "=0.19.2"
users = "=0.11.0"
# Gives object ids their `as_ptr`, which the renderer needs.
wayland-backend = { version = "=0.3.17", features = ["client_system", "dlopen"] }
wayland-client = "=0.31.15"
wayland-protocols = { version = "=0.32.13", features = ["client", "staging"] }

[dev-dependencies]
xkeysym = "=0.2.1"
