[package]
name = "syncgit2"
version = "0.1.0"
edition = "2021"
publish = false

[dependencies]
actix = "*"
actix-web = "*"
auth-git2 = "*"
git2 = "*"
lazy_static = "*"
log = "*"
log4rs = "*"
serde = { version = "*", features = ["derive"] }
sha2 = "*"
thingbuf = "*"
toml = "*"
