[package]
name = "manifest"
version = "0.1.0"
edition = "2021"
publish = false

[dependencies]
duct = "*"
log = "*"
os_pipe = "*"
serde = { version = "1", features = ["derive"] }
serde_derive = "1"
serde_yaml = "*"
stderrlog = "*"
structopt = "*"
url = { version = "2", features = ["serde"] }
which = "*"
