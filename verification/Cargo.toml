[package]
name = "himalaya_tui"
version = "0.1.0"
edition = "2021"
publish = false

[dependencies]
anyhow = "=1.0.104"
url = "=2.5.8"
edtui = { version = "=0.11.7", default-features = false }
mml-lib = { version = "=1.1.2", default-features = false, features = ["compiler"] }
mail-parser = "=0.11.9"
html2text = "=0.17.4"
ratatui = "=0.30.2"
clap = { version = "=4.6.7", features = ["derive"] }
serde = { version = "=1.0.229", features = ["derive"] }
log = "=0.4.35"
simplelog = "=0.12.2"
pimalaya-toolbox = { version = "=0.0.4", default-features = false, features = ["config"] }
io-email = { version = "=0.1.0", default-features = false, features = ["imap", "smtp", "jmap", "rustls-ring"] }
io-jmap = { version = "=0.1.0", default-features = false, features = ["rustls-ring"] }
base64 = "=0.22.1"
pimalaya-stream = { version = "=0.0.1", default-features = false }
secrecy = "=0.10.3"
