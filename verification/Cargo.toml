[package]
name = "unifly"
version = "0.1.0"
edition = "2021"
publish = false

[dependencies]
chrono = { version = "0.4", default-features = false, features = ["std", "clock"] }
serde = { version = "1", features = ["derive"] }
serde_json = "1"
ratatui = "*"
crossterm = "*"
color-eyre = "*"
tabled = "*"
tiny-skia = "*"
image = { version = "*", default-features = false, features = ["png"] }
ratatui-image = { version = "*", default-features = false }
