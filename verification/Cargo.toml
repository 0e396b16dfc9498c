[package]
name = "imekit"
version = "0.1.0"
edition = "2021"
publish = false

[dependencies]
async-io = "2"
futures-core = "0.3"
log = "0.4"
objc2 = "0.6"
objc2-foundation = "0.3"
tracing = "0.1"
wayland-client = "0.31"
wayland-protocols = { version = "0.32", features = ["client", "unstable"] }
wayland-protocols-misc = { version = "0.3", features = ["client"] }
x11rb = { version = "0.13", features = ["xtest"] }
xkbcommon = { version = "0.8", features = ["wayland"] }
zbus = "5"
