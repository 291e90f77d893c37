[package]
name = "data_table"
version = "0.1.0"
edition = "2021"
publish = false

[dependencies]
serde = { version = "=1.0.229", features = ["derive"] }
serde-value = "=0.7.0"
web-sys = { version = "=0.3.106", features = ["HtmlInputElement", "InputEvent"] }
yew = { version = "=0.21.0", features = ["csr"] }
yew-custom-components = { version = "=0.2.2", features = ["table", "pagination"] }
yew-hooks = "0.3"
