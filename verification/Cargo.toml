[package]
name = "vm_launcher"
version = "0.1.0"
edition = "2021"
publish = false

[dependencies]
rand = "*"
caps = "*"
libc = "*"
ipnet = "*"
clap = { version = "*", features = ["derive"] }
inquire = "*"
ctrlc = "*"
serde = { version = "*", features = ["derive"] }
serde_json = "*"
serde_yaml = "*"
tempdir = "*"
tinytemplate = "*"
async-std = "*"
async-process = "*"
futures = "*"
futures-lite = "*"
camino = "*"
homedir = "*"
which = "*"
