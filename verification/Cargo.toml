[package]
name = "dc"
version = "0.1.0"
edition = "2021"
publish = false

[dependencies]
bollard = "*"
clap = { version = "4", features = ["derive"] }
color-eyre = "*"
crossterm = "*"
duct = "*"
duct_sh = "*"
eyre = "*"
gix = "*"
indexmap = { version = "2", features = ["serde"] }
indicatif = "*"
jiff = "*"
owo-colors = "*"
serde = { version = "1", features = ["derive"] }
serde-inline-default = "*"
serde_with = "*"
shellexpand = "*"
tokio = { version = "1", features = ["process", "rt"] }
tracing = "*"
tracing-indicatif = "*"
tracing-subscriber = "*"
vec1 = { version = "*", features = ["serde"] }

[dev-dependencies]
serde_json = "1"
