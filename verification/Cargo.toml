[package]
name = "gistit"
version = "0.1.0"
edition = "2021"
publish = false

[dependencies]
git2 = "*"
serde_json = "1"
serde = { version = "1", features = ["derive"] }
reqwest = { version = "0.12", features = ["blocking", "json"] }
clap = "2"
emojicons = "1"
exitcode = "1"

[dev-dependencies]
tempfile = "3"
