[package]
name = "rustybara"
version = "0.1.0"
edition = "2021"
publish = false

[dependencies]
lopdf = "*"
lcms2 = "6"
image = { version = "0.25", default-features = false, features = ["png", "jpeg", "webp", "tiff"] }
pdfium-render = "0.8"
chrono = "0.4"
clap = { version = "4", features = ["derive"] }
ratatui = "0.29"
