[package]
name = "swaynimated"
version = "0.1.0"
edition = "2021"
publish = false

[dependencies]
image = "=0.22.5"
log = "=0.4.34"
natord = "=1.0.9"
raw-window-handle = "=0.3.4"
rayon = "=1.12.0"
shaderc = "=0.6.3"
smithay-client-toolkit = "=0.6.6"
structopt = "=0.3.26"
wayland-client = "=0.23.6"
wayland-protocols = { version = "=0.23.6", features = ["client", "unstable_protocols"] }
wayland-sys = "=0.23.6"
wgpu = "=0.4.0"
