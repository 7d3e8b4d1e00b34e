[package]
name = "github_search"
version = "0.1.0"
edition = "2021"
publish = false

[dependencies]
log = "=0.4.34"
web-sys = { version = "=0.3.106", features = ["HtmlInputElement", "KeyboardEvent"] }
yew = { version = "=0.23.0", features = ["csr"] }
