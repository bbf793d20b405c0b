[package]
name = "zoha"
version = "0.1.0"
edition = "2021"
publish = false

[dependencies]
clap = { version = "4", features = ["derive"] }
dbus = "0.9"
device_query = "=1.1.3"
dirs = "5"
eyre = "0.6"
gdk = "0.18"
gdk4 = "0.7"
glib = "0.18"
gtk = "0.18"
gtk4 = "0.7"
log = "0.4"
pango = "0.18"
pretty_env_logger = "0.5"
serde = { version = "1", features = ["derive"] }
thiserror = "1"
toml = "0.8"
zoha-vte = "*"
