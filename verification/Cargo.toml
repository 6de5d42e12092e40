[package]
name = "shufflerouter"
version = "0.1.0"
edition = "2021"
publish = false

[dependencies]
rand = "0.8"
clap = { version = "4", features = ["derive"] }
log = "0.4"
mio = { version = "0.8", features = ["net", "os-poll"] }
mio-signals = "0.2"
num-format = { version = "0.4", features = ["with-system-locale"] }
stderrlog = "0.6"
