[package]
name = "bolide"
version = "0.1.0"
edition = "2021"
publish = false

[dependencies]
shlex = "=2.0.1"
frankenstein = { version = "=0.52.1", features = ["client-reqwest"] }
tokio = { version = "*", features = ["rt-multi-thread", "macros", "time"] }
reqwest = "*"
anyhow = "*"
serde = { version = "*", features = ["derive"] }
toml = "*"
log = "*"
clap = { version = "*", features = ["derive"] }
clap-verbosity-flag = "*"
ctrlc = "*"
async-trait = "*"
fern = "*"
