[package]
name = "deli"
version = "0.1.0"
edition = "2021"
publish = false

[dependencies]
anyhow = "=1.0.104"
chrono = { version = "=0.4.45", default-features = false, features = ["clock", "std"] }
clap = { version = "=4.6.7", default-features = false, features = ["std", "derive", "help", "usage", "error-context"] }
crossterm = "=0.29.0"
image = { version = "=0.25.10", default-features = false, features = ["png"] }
libc = "=0.2.191"
pulldown-cmark = { version = "=0.13.6", default-features = false }
ratatui = { version = "=0.30.2", default-features = false, features = ["crossterm"] }
ratatui-code-editor = { version = "=0.0.6", default-features = false, features = ["crossterm"] }
ratatui-image = { version = "=11.1.0", default-features = false, features = ["crossterm"] }
reqwest = { version = "=0.12.28", default-features = false, features = ["blocking", "json"] }
serde = { version = "=1.0.229", features = ["derive"] }
serde_json = "=1.0.154"
thiserror = "=2.0.21"
toml = "=0.8.23"
tui-markdown = { version = "=0.3.13", default-features = false }
url = "=2.5.8"
