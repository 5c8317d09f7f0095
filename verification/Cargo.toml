[package]
name = "thoth"
version = "0.1.0"
edition = "2021"
publish = false

[dependencies]
regex = "1"
human-sort = "0.2"
convert_case = "0.6"
titlecase = "2"
owo-colors = "4"
shellexpand = "3"
tabled = "*"
users = "0.11"
clap = { version = "4", features = ["derive"] }
serde = { version = "1", features = ["derive"] }
reqwest = { version = "0.12", features = ["blocking", "json"] }
flate2 = "1"
tar = "0.4"
toml = "0.8"
glob = "0.3"
chrono = "0.4"
