[package]
name = "dirichlet"
version = "0.1.0"
edition = "2021"
publish = false

[dependencies]
num-traits = "0.2"
rand = "0.8"
rustc_apfloat = "*"
serde = { version = "1", features = ["derive"] }

[dev-dependencies]
rand_pcg = "0.3"
