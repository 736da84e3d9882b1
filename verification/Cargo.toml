[package]
name = "ebook_reader"
version = "0.1.0"
edition = "2021"
publish = false

[dependencies]
html2text = "=0.4.5"
serde_json = "=1.0.154"
epub = "=1.2.4"
druid = { version = "=0.8.3", features = ["im", "image", "png", "jpeg", "svg"] }
druid-widget-nursery = "=0.1.0"
native-dialog = "=0.7.0"
tesseract = "=0.15.2"
zip = "=9.0.5"
zip-extensions = "=0.14.1"
