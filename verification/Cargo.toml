[package]
name = "chainx-cli"
version = "0.1.0"
edition = "2021"
publish = false

[dependencies]
anyhow = "1"
hex = "0.4"
serde_json = "1"
structopt = "0.3"
ureq = { version = "2", default-features = false, features = ["json"] }

[dev-dependencies]
frame-metadata = { version = "14.0.0", features = ["std", "v12", "v13", "v14"] }
parity-scale-codec = "2"
scale-info = "1"
