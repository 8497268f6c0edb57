[package]
name = "ash"
version = "0.1.0"
edition = "2021"
publish = false

[dependencies]
aws-sigv4 = "=0.55.3"
chrono = "=0.4.45"
clap = { version = "=4.6.7", features = ["derive"] }
clap_complete = "=4.6.11"
dialoguer = { version = "=0.10.4", features = ["fuzzy-select"] }
dioxus = "0.2"
dioxus-tui = "0.2"
directories = "=5.0.1"
eyre = "=0.6.14"
fuzzy-matcher = "=0.3.7"
handlebars = "=4.5.0"
http = "=0.2.12"
itertools = "=0.10.5"
minreq = { version = "=2.14.1", features = ["https"] }
roxmltree = "=0.18.1"
rust-ini = "=0.18.0"
serde = { version = "=1.0.229", features = ["derive"] }
serde_json = "=1.0.154"
