[package]
name = "rgb_utils"
version = "0.1.0"
edition = "2021"
publish = false

[dependencies]
amplify = "=4.8.1"
bincode = "=1.3.3"
bitcoin = "=0.32.102"
futures = "=0.3.34"
rgb-consensus = "=0.11.1"
rgb-ops = "=0.11.1"
rgb-strict-encoding = "=1.0.5"
tokio = { version = "=1.54.1", features = ["rt", "rt-multi-thread"] }
