[package]
name = "tiny_pinch"
version = "0.1.0"
edition = "2021"
publish = false

[dependencies]
anyhow = "*"
bevy_ecs = "0.14"
chrono = "0.4"
clap = { version = "4", features = ["derive"] }
ctor = "*"
dll-syringe = "*"
dotenvy = "*"
hxdmp = "*"
lazy_static = "*"
once_cell = "*"
parking_lot = "*"
pdb = "*"
retour = "*"
rustc-demangle = "*"
shell-words = "*"
tracing = "*"
tracing-subscriber = "*"
windows = { version = "*", features = ["Win32_Foundation", "Win32_System_LibraryLoader"] }
