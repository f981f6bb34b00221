[package]
name = "checkout_picker"
version = "0.1.0"
edition = "2021"
publish = false

[dependencies]
bpaf = "=0.9.28"
git2 = { version = "=0.21.0", default-features = false }
inquire = "=0.9.4"

[dev-dependencies]
tempfile = "3"
