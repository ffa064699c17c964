[package]
name = "lives"
version = "0.1.0"
edition = "2021"
publish = false

[dependencies]
chrono = "0.4"
diesel = { version = "1.4", features = ["postgres", "chrono"] }
dotenv = "0.15"
r2d2 = "0.8"
r2d2-diesel = "1.0"
