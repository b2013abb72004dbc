[package]
name = "nlsh-rs"
version = "0.1.0"
edition = "2021"
publish = false

[dependencies]
async-trait = "*"
clap = { version = "*", features = ["derive"] }
colored = "*"
dialoguer = "*"
dirs = "*"
inquire = "*"
libc = "*"
log = "*"
nix = { version = "*", features = ["term"] }
reqwest = { version = "*", features = ["json"] }
rustyline = "*"
serde = { version = "*", features = ["derive"] }
serde_json = "*"
thiserror = "*"
tokio = { version = "*", features = ["macros", "rt-multi-thread", "signal", "sync", "time"] }
tokio-util = "*"
toml = "*"
unicode-width = "*"
