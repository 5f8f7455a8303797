[package]
name = "frippy"
version = "0.1.0"
edition = "2021"
publish = false

[dependencies]
time = { version = "0.3", features = ["formatting", "parsing"] }
chrono = "0.4"
serde = { version = "1", features = ["derive"] }
serde_json = "1"
mlua = { version = "0.10", features = ["lua54", "vendored"] }
reqwest = { version = "0.12", default-features = false, features = ["blocking", "rustls-tls"] }
diesel = { version = "2", features = ["mysql", "r2d2", "time", "chrono"] }
diesel_migrations = "2"
r2d2 = "0.8"
antidote = "1"
log = "0.4"
log4rs = "1"
glob = "0.3"
failure = "0.1"
irc = "0.13"
