[package]
name = "post_archiver_viewer"
version = "0.1.0"
edition = "2021"
publish = false

[dependencies]
post-archiver = { version = "=0.5.8", features = ["utils"] }
rusqlite = { version = "=0.32.1", features = ["bundled"] }
serde_json = "*"
serde = { version = "*", features = ["derive"] }
axum = "*"
axum-extra = { version = "*", features = ["query"] }
tokio = { version = "*", features = ["rt-multi-thread", "macros", "net"] }
clap = { version = "*", features = ["derive", "env"] }
chrono = "*"
mime_guess = "*"
zip = "*"

[dev-dependencies]
tempfile = "*"
