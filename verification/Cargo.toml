[package]
name = "spotifast"
version = "0.8.0"
edition = "2021"
publish = false

[dependencies]
directories = "6"
egui = { version = "0.31", default-features = false, features = ["default_fonts"] }
jiff = "0.2"
log = "0.4"
reqwest = { version = "0.12", default-features = false, features = ["json"] }
serde = { version = "1", features = ["derive"] }
serde_json = "1"
sha2 = "0.10"
thiserror = "2"
tokio = { version = "1", features = ["fs", "macros", "rt-multi-thread", "sync", "time"] }
