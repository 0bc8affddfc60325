[package]
name = "snapshotter"
version = "0.1.0"
edition = "2021"
publish = false

[dependencies]
chrono = "*"
clap = { version = "*", features = ["derive"] }
flate2 = "*"
glob = "*"
log = "*"
rayon = "*"
serde = { version = "*", features = ["derive"] }
serde_yaml = "*"
sha2 = "*"
simplelog = "*"
tar = "*"
thiserror = "*"
