[package]
name = "rvideo"
version = "0.5.0"
edition = "2021"
publish = false

[dependencies]
clap = { version = "4", features = ["derive"] }
eframe = { version = "0.29", default-features = false, features = ["default_fonts", "glow", "x11"] }
egui = { version = "0.29", default-features = false }
egui_extras = { version = "0.29", default-features = false, features = ["image"] }
image = { version = "0.25", default-features = false, features = ["jpeg", "png"] }
imageproc = { version = "0.25", default-features = false }
once_cell = "=1.21.4"
parking_lot_rt = "=0.12.1"
rmp-serde = "1"
serde = { version = "=1.0.229", features = ["derive"] }
serde_json = "1"
thiserror = "=1.0.69"
tokio = { version = "=1.54.1", features = ["net", "io-util", "time"] }
tracing = "=0.1.44"
