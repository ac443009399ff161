[package]
name = "cmux-linux"
version = "0.1.0"
edition = "2021"
publish = false

[dependencies]
uuid = { version = "1", features = ["v4", "serde"] }
serde = { version = "1", features = ["derive"] }
serde_json = "1"
tokio = { version = "1", features = ["full"] }
clap = { version = "4", features = ["derive", "env"] }
gtk4 = { version = "*", features = ["v4_10"] }
glib = "*"
libc = "0.2"
