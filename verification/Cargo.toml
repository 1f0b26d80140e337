[package]
name = "mwifiex_nl80211_test_mode"
version = "0.1.0"
edition = "2021"
publish = false

[dependencies]
clap = { version = "4", features = ["derive"] }
colored = "*"
inquire = "*"
neli = "0.7.5"
nix = { version = "*", features = ["net"] }
serde = { version = "1", features = ["derive"] }
serde-saphyr = "*"
bitfield-struct = "*"
zerocopy = { version = "0.8", features = ["derive"] }
