[package]
name = "dotmgr"
version = "0.1.0"
edition = "2021"
publish = false

[dependencies]
clap = { version = "4", features = ["derive"] }
clap-verbosity-flag = "2"
colored = "2"
crossterm = "0.25"
dirs = "5"
env_logger = "0.10"
glob = "0.3"
log = "0.4"
notify = "5"
tui = "0.19"
