[package]
name = "nispor"
version = "0.1.0"
edition = "2021"
publish = false

[dependencies]
netlink-packet-route = "*"
wl-nl80211 = "*"
tokio = { version = "*", features = ["rt"] }
futures = "*"
serde = { version = "*", features = ["derive"] }
