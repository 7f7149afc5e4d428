[package]
name = "augment_vol_brt_man"
version = "0.1.0"
edition = "2021"
publish = false

[dependencies]
clap = { version = "4", features = ["derive"] }
glib = "0.18"
gtk = "0.18"
gtk-layer-shell = "0.8"
xdg = "2"

[dev-dependencies]
toml = "0.8"
