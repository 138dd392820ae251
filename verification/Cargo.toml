[package]
name = "predawn"
version = "0.1.0"
edition = "2021"
publish = false

[dependencies]
bytes = "1"
futures-util = "0.3"
http = "1"
hyper = "1"
indexmap = "2"
mime = "0.3"
openapiv3 = "2"
rudi = "*"
serde = { version = "1", features = ["derive"] }
serde_html_form = "0.2"
serde_json = "1"
serde_path_to_error = "0.1"
thiserror = "1"
tower = "*"
