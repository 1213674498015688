[package]
name = "gamepad_remap"
version = "0.1.0"
edition = "2021"
publish = false

[dependencies]
duration-str = "*"
enigo = { version = "*", features = ["serde"] }
gilrs = "*"
nix = { version = "*", features = ["signal"] }
serde = { version = "*", features = ["derive"] }
shlex = "*"
single-instance = "*"
tokio = { version = "*", features = ["rt-multi-thread", "macros", "time", "sync"] }
toml = "*"
