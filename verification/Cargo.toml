[package]
name = "azimuthal_fdf"
version = "0.1.0"
edition = "2021"
publish = false

[dependencies]
clap = { version = "*", features = ["derive"] }
num_cpus = "*"
rand = "*"
rand_distr = "*"
rayon = "*"
serde = { version = "*", features = ["derive"] }
serde_json = "*"
