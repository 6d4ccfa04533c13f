[package]
name = "service_install"
version = "0.1.0"
edition = "2021"
publish = false

[dependencies]
shell-escape = "*"
itertools = "*"
home = "*"
sudo = "*"
sysinfo = "*"
tempfile = "*"
thiserror = "*"
time = "*"
tokio = { version = "*", features = ["rt", "time"] }
tracing = "*"
uzers = "*"
systemd-zbus = "*"
dialoguer = "*"
