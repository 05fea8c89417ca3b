[package]
name = "pullyt"
version = "0.1.0"
edition = "2021"
publish = false

[dependencies]
iced = { version = "0.12", default-features = false }
open = "5"
rfd = { version = "0.14", default-features = false }
serde = { version = "1", features = ["derive"] }
serde_json = "1"
tar = "0.4"
ureq = { version = "2", features = ["json"] }
xz2 = "0.1"
zip = { version = "0.6", default-features = false, features = ["deflate"] }
