[package]
name = "noted"
version = "0.1.0"
edition = "2021"
publish = false

[dependencies]
chrono = "0.4"
dirs = "*"
git2 = { version = "*", default-features = false }
glob = "0.3"
grep = "0.2"
path-clean = "*"
clap = "2"
log = "0.4"
simple_logger = "*"
open = "*"

[dev-dependencies]
tempfile = "3"
