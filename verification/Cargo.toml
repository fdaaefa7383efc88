[package]
name = "pdf_merge"
version = "0.1.0"
edition = "2021"
publish = false

[dependencies]
clap = { version = "4", features = ["derive"] }
comfy-table = "7"
filesize = "0.2"
human_bytes = "0.4"
memory-stats = "1"
pdfium-render = "0.8"
