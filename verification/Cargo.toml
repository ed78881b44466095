[package]
name = "janitor"
version = "0.1.0"
edition = "2021"
publish = false

[dependencies]
async-trait = "=0.1.92"
breezyshim = { version = "=0.7.31", default-features = false }
chrono = { version = "=0.4.45", default-features = false, features = ["std"] }
log = "=0.4.34"
pyo3 = "=0.30.1"
pyo3-log = "*"
reqwest = { version = "=0.12.28", default-features = false, features = ["json"] }
serde = { version = "=1.0.229", features = ["derive"] }
silver-platter = { version = "=0.8.6", default-features = false }
sqlx = { version = "=0.8.6", default-features = false, features = ["postgres", "runtime-tokio"] }
tokio = { version = "=1.54.1", features = ["process"] }
url = "=2.5.8"
