[package]
name = "mosaicneitor"
version = "0.1.0"
edition = "2021"
publish = false

[dependencies]
palette = { version = "0.7", default-features = false, features = ["libm"] }
semver = "1"
dirs = "5"
egui_extras = "0.29"
egui-file-dialog = "0.7"
image = { version = "0.25", default-features = false, features = ["jpeg", "png"] }
rust-i18n = "3"

[dev-dependencies]
egui = "0.29"
