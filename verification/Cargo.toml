[package]
name = "flickr_warc"
version = "0.1.0"
edition = "2021"
publish = false

[dependencies]
anyhow = "1"
flate2 = "1"
httparse = "1"
immeta = "*"
regex = "1"
scraper = "*"
tfrecord = "*"
url = "2"
warc = "*"
