[package]
name = "votd_cli"
version = "0.1.0"
edition = "2021"
publish = false

[dependencies]
argh = "=0.1.19"
directories = "=6.0.0"
filetime = "=0.2.29"
reqwest = { version = "=0.13.5", default-features = false, features = ["json"] }
rmp-serde = "=1.3.1"
serde = { version = "=1.0.229", features = ["derive"] }
serde_derive = "=1.0.229"
textwrap = { version = "=0.16.4", features = ["terminal_size"] }
tokio = { version = "=1.53.2", features = ["macros", "rt-multi-thread"] }
