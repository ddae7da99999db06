[package]
name = "aa_headunit_diagnostics"
version = "0.1.0"
edition = "2021"
publish = false

[dependencies]
serde = { version = "1", features = ["derive"] }
toml = "*"
ctrlc = "3"
caps = "*"
nix = { version = "*", features = ["process"] }
tokio = { version = "1", features = ["rt", "rt-multi-thread"] }
rtnetlink = "*"
futures-util = "0.3"
