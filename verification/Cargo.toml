[package]
name = "lightfetch"
version = "0.1.0"
edition = "2021"
publish = false

[dependencies]
tiny-ansi = "*"
whoami = "*"
sysinfo = "*"
num_cpus = "*"
winit = "*"
wmi = "*"
