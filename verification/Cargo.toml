[package]
name = "itsylinker"
version = "0.1.0"
edition = "2021"
publish = false

[dependencies]
object = { version = "=0.27.1", features = ["write"] }
wildmatch = "=2.7.0"
indexmap = "=1.9.3"
memmap2 = "=0.3.1"
toml = "=0.5.11"
serde = "=1.0.229"
serde_derive = "=1.0.229"
