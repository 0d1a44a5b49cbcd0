[package]
name = "dinghy_lib"
version = "0.1.0"
edition = "2021"
publish = false

[dependencies]
anyhow = "1"
cargo_metadata = "*"
clap = "2"
dirs = "*"
env_logger = "0.8"
isatty = "0.1"
itertools = "0.10"
log = "0.4"
openssl = "0.10"
plist = "1"
regex = "1"
semver = "*"
serde = { version = "1", features = ["derive"] }
serde_json = "1"
shell-escape = "0.1"
simctl = "*"
structopt = "0.3"
tempdir = "0.3"
tinytemplate = "1"
