[package]
name = "musictui"
version = "0.1.0"
edition = "2021"
publish = false

[dependencies]
ratatui = "=0.30.2"
crossterm = "=0.29.0"
vlc-rs = "=0.3.0"
id3 = "=1.17.2"
tokio = { version = "=1.53.2", features = ["rt-multi-thread", "macros", "time", "sync"] }
musicbrainz_rs = { version = "=0.14.0", features = ["async"] }
log = "=0.4.34"
log4rs = "=1.4.0"
