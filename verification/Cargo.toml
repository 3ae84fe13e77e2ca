[package]
name = "pdf_viewer_core"
version = "0.1.0"
edition = "2021"
publish = false

[dependencies]
pdfium-render = "*"
log = "*"
thiserror = "*"
