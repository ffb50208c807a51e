[package]
name = "storage_usage"
version = "0.1.0"
edition = "2021"
publish = false

[dependencies]
mft = "=0.7.0"
nucleo = "=0.5.0"
humantime = "=2.4.0"
humansize = "=2.1.3"
glob = "=0.3.4"
chrono = "=0.4.45"
clap = { version = "=4.6.7", features = ["derive"] }
ratatui = "=0.30.2"
tachyonfx = "=0.25.2"
rayon = "=1.12.0"
memmap2 = "=0.9.12"
eyre = "=0.6.14"
color-eyre = "=0.6.5"
tracing = "=0.1.44"
tracing-subscriber = "=0.3.23"
directories-next = "=2.0.0"
owo-colors = "=4.4.0"

[dev-dependencies]
windows-sys = { version = "=0.61.2", features = ["Win32_System_Performance"] }
