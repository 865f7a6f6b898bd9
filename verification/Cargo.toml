[package]
name = "pyo3_pack"
version = "0.1.0"
edition = "2021"
publish = false

[dependencies]
anyhow = "*"
bytesize = "*"
cargo_metadata = "*"
configparser = "*"
dirs = "*"
fs-err = "*"
indicatif = "*"
keyring = "*"
once_cell = "*"
reqwest = { version = "*", default-features = false, features = ["blocking", "multipart"] }
rpassword = "*"
serde_json = "*"
structopt = "*"
url = "*"
