[package]
name = "octofhir_fhir_model"
version = "0.1.0"
edition = "2021"
publish = false

[dependencies]
papaya = "*"
serde = { version = "*", features = ["derive"] }
serde_json = "*"
async-trait = "*"
thiserror = "*"
rust_decimal = "*"
moka = { version = "*", features = ["future"] }
reqwest = { version = "*", default-features = false, features = ["json", "gzip"] }
