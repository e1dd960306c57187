[package]
name = "postgresfixture"
version = "0.1.0"
edition = "2021"
publish = false

[dependencies]
nix = "0.26"
glob = "0.3"
rand = "0.8"
shell-quote = "*"
postgres-protocol = "0.6"
postgres = "0.19"
clap = { version = "4", features = ["derive", "env"] }
color-eyre = "0.6"
ctrlc = { version = "3", features = ["termination"] }
uuid = { version = "1", features = ["v5"] }

[dev-dependencies]
tempdir = "0.3"
