[package]
name = "mpd_state_changes"
version = "0.1.0"
edition = "2021"
publish = false

[dependencies]
futures-core = "0.3"
mpd_protocol = { version = "*", default-features = false }
tokio = { version = "1", default-features = false, features = ["sync"] }
