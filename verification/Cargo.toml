[package]
name = "clemen"
version = "0.1.0"
edition = "2021"
rust-version = "1.95"
publish = false

[dependencies]
anyhow = "1"
chrono = { version = "=0.4.45", features = ["serde"] }
dptree = "=0.5.1"
lastfm-client = "=5.0.0"
regex = "=1.13.1"
serde = { version = "1", features = ["derive"] }
serde_json = "1"
# Used by teloxide; 0.1.2 needs a newer compiler than the one above.
takecell = "=0.1.1"
teloxide = { version = "=0.17.0", features = ["macros"] }
tmdb-api = "=0.9.1"
tokio = { version = "1", features = ["macros", "rt-multi-thread", "sync", "time"] }
yt-dlp = "=2.10.0"
