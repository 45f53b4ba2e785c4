[package]
name = "dotfiles-manager"
version = "1.2.0"
edition = "2021"
publish = false

[dependencies]
age = "0.11"
anstream = "0.6"
anstyle = "1"
chrono = "0.4"
clap = { version = "4", features = ["derive"] }
clap_complete = "4"
clap_mangen = "0.2"
color-eyre = "0.6"
rpassword = "7"
serde = { version = "1", features = ["derive"] }
serde_json = "1"
